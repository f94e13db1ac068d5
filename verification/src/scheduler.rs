//! The cadence scheduler: walks the lines of a text and decides, with the
//! timing model's random draws, the actions that type them.
//!
//! A line is typed character by character. Before a character a typo may be
//! made and corrected; the character itself follows after a delay. A blank
//! line may trigger a long pause. Every line ends with a longer delay and the
//! line terminator.
//!
//! The draws are random, so no contract here says which schedule comes out.
//! Each says which schedules can come out: the predicates below describe them
//! up to the values drawn.

use crate::action::{Action, Stroke};
use crate::config::{Configuration, Settings, MILLIS_PER_MINUTE, PARTS_PER_MILLION};
use crate::timing::{pause_decision, random_delay, random_letter, typo_decision};
use rand::rngs::StdRng;
use vstd::prelude::*;

verus! {

/// `delay` is a delay that the parameters allow before a keystroke.
pub open spec fn is_delay(settings: Settings, delay: u64) -> bool {
    settings.min_delay <= delay < settings.max_delay
}

/// `action` is a typo that the parameters allow: possible at all, of an
/// allowed length, made of lowercase letters, with as many erasures as
/// characters typed, and an allowed delay after each of them.
pub open spec fn is_typo_episode(settings: Settings, action: Action) -> bool {
    &&& action matches Action::TypoEpisode { typed, erase_delays }
    &&& settings.typo_ppm > 0
    &&& settings.typo_chars_min <= typed@.len() <= settings.typo_chars_max
    &&& erase_delays@.len() == typed@.len()
    &&& forall|i: int|
        0 <= i < typed@.len() ==> 'a' <= (#[trigger] typed@[i]).c <= 'z' && is_delay(
            settings,
            typed@[i].delay,
        )
    &&& forall|i: int| 0 <= i < erase_delays@.len() ==> is_delay(settings, #[trigger] erase_delays@[i])
}

/// `action` types the character `c` of the text after an allowed delay.
pub open spec fn is_keystroke(settings: Settings, action: Action, c: char) -> bool {
    &&& action matches Action::TypeChar { c: typed, delay }
    &&& typed == c
    &&& is_delay(settings, delay)
}

/// `action` ends a line after twice an allowed delay.
pub open spec fn is_commit(settings: Settings, action: Action) -> bool {
    &&& action matches Action::CommitLine { delay }
    &&& delay % 2 == 0
    &&& is_delay(settings, (delay / 2) as u64)
}

/// `action` is a long pause that the parameters allow: possible at all, and
/// a whole number of minutes within the bounds.
pub open spec fn is_pause(settings: Settings, action: Action) -> bool {
    &&& action matches Action::Pause { millis }
    &&& settings.sleep_ppm > 0
    &&& millis % MILLIS_PER_MINUTE == 0
    &&& settings.sleep_minutes_min <= millis / MILLIS_PER_MINUTE <= settings.sleep_minutes_max
}

/// `actions` type the characters of `text`, in order and nothing else: for
/// each character its keystroke, with at most one typo directly before it.
/// Where typos are certain each keystroke has one.
///
/// Read from the end: the last action is the keystroke of the last
/// character; a typo before it, if there is one, belongs to it; what is left
/// types the text without its last character.
pub open spec fn types_text(settings: Settings, text: Seq<char>, actions: Seq<Action>) -> bool
    decreases text.len(),
{
    let n = actions.len() as int;
    if text.len() == 0 {
        n == 0
    } else if n >= 2 && actions[n - 2] is TypoEpisode {
        &&& is_keystroke(settings, actions[n - 1], text.last())
        &&& is_typo_episode(settings, actions[n - 2])
        &&& types_text(settings, text.drop_last(), actions.take(n - 2))
    } else {
        &&& n >= 1
        &&& is_keystroke(settings, actions[n - 1], text.last())
        &&& settings.typo_ppm < PARTS_PER_MILLION
        &&& types_text(settings, text.drop_last(), actions.take(n - 1))
    }
}

/// `actions` are a schedule of `line`: the keystrokes of its characters with
/// their typos, then the line terminator. A blank line, and only a blank
/// line, may start with a long pause; where pauses are certain it does.
pub open spec fn is_line_schedule(settings: Settings, line: Seq<char>, actions: Seq<Action>) -> bool {
    let n = actions.len() as int;
    &&& n >= 1
    &&& is_commit(settings, actions[n - 1])
    &&& if line.len() > 0 {
        types_text(settings, line, actions.take(n - 1))
    } else if n == 1 {
        settings.sleep_ppm < PARTS_PER_MILLION
    } else {
        n == 2 && is_pause(settings, actions[0])
    }
}

/// `schedule` holds one schedule for each line of `lines`, in order.
pub open spec fn is_schedule(
    settings: Settings,
    lines: Seq<Vec<char>>,
    schedule: Seq<Vec<Action>>,
) -> bool {
    &&& schedule.len() == lines.len()
    &&& forall|i: int|
        0 <= i < lines.len() ==> is_line_schedule(settings, lines[i]@, #[trigger] schedule[i]@)
}

/// Decides whether a typo precedes a character and, if so, draws it: the
/// extra characters with the delay after each, and the delay after each
/// erasure.
///
/// A probability of zero never gives a typo; certainty always gives one.
pub fn typo_episode(config: &Configuration, rng: &mut StdRng) -> (episode: Option<Action>)
    ensures
        config@.typo_ppm == 0 ==> episode is None,
        config@.typo_ppm == PARTS_PER_MILLION ==> episode is Some,
        episode matches Some(action) ==> is_typo_episode(config@, action),
{
    let length = match typo_decision(config, rng) {
        Some(length) => length,
        None => {
            return None;
        },
    };
    let mut typed: Vec<Stroke> = Vec::new();
    let mut i: u64 = 0;
    while i < length
        invariant
            i <= length,
            typed@.len() == i,
            forall|k: int|
                0 <= k < typed@.len() ==> 'a' <= (#[trigger] typed@[k]).c <= 'z' && is_delay(
                    config@,
                    typed@[k].delay,
                ),
        decreases length - i,
    {
        let c = random_letter(rng);
        let delay = random_delay(config, rng);
        typed.push(Stroke { c, delay });
        i += 1;
    }
    let mut erase_delays: Vec<u64> = Vec::new();
    let mut j: u64 = 0;
    while j < length
        invariant
            j <= length,
            erase_delays@.len() == j,
            forall|k: int|
                0 <= k < erase_delays@.len() ==> is_delay(config@, #[trigger] erase_delays@[k]),
        decreases length - j,
    {
        let delay = random_delay(config, rng);
        erase_delays.push(delay);
        j += 1;
    }
    Some(Action::TypoEpisode { typed, erase_delays })
}

/// Decides whether a blank line triggers a long pause and, if so, draws its
/// length.
///
/// A probability of zero never gives a pause; certainty always gives one.
pub fn blank_line_pause(config: &Configuration, rng: &mut StdRng) -> (pause: Option<Action>)
    ensures
        config@.sleep_ppm == 0 ==> pause is None,
        config@.sleep_ppm == PARTS_PER_MILLION ==> pause is Some,
        pause matches Some(action) ==> is_pause(config@, action),
{
    proof {
        use_type_invariant(config);
    }
    match pause_decision(config, rng) {
        Some(minutes) => {
            let millis = minutes * MILLIS_PER_MINUTE;
            Some(Action::Pause { millis })
        },
        None => None,
    }
}

/// Reads the character at position `i` of a line.
fn char_at(line: &Vec<char>, i: usize) -> (c: char)
    requires
        i < line.len(),
    ensures
        c == line@[i as int],
{
    line[i]
}

/// Schedules one line: a long pause if the line is blank and the draw says
/// so; for each character a typo if the draw says so, then the character
/// after a delay; at last the line terminator after twice a delay.
pub fn schedule_line(config: &Configuration, line: &Vec<char>, rng: &mut StdRng) -> (actions: Vec<
    Action,
>)
    ensures
        is_line_schedule(config@, line@, actions@),
{
    let settings = config.settings();
    let mut actions: Vec<Action> = Vec::new();
    if line.len() == 0 {
        match blank_line_pause(config, rng) {
            Some(pause) => {
                actions.push(pause);
            },
            None => {},
        }
    }
    let ghost paused = actions@;
    let mut i: usize = 0;
    assert(line@.take(0) =~= Seq::<char>::empty());
    while i < line.len()
        invariant
            i <= line.len(),
            settings == config@,
            settings.valid(),
            line.len() > 0 ==> types_text(settings, line@.take(i as int), actions@),
            line.len() == 0 ==> actions@ == paused,
        decreases line.len() - i,
    {
        let ghost before = actions@;
        let ghost text = line@.take(i + 1);
        assert(text.drop_last() =~= line@.take(i as int));
        assert(text.last() == line@[i as int]);
        proof {
            lemma_ends_with_keystroke(settings, line@.take(i as int), before);
        }
        let c = char_at(line, i);
        let episode = typo_episode(config, rng);
        let delay = random_delay(config, rng);
        match episode {
            Some(episode) => {
                actions.push(episode);
                actions.push(Action::TypeChar { c, delay });
                assert(actions@.take(actions@.len() - 2) =~= before);
            },
            None => {
                actions.push(Action::TypeChar { c, delay });
                assert(actions@.take(actions@.len() - 1) =~= before);
            },
        }
        i += 1;
    }
    assert(line@.take(i as int) =~= line@);
    let ghost typed = actions@;
    let delay = random_delay(config, rng);
    proof {
        settings.lemma_delay_fits();
    }
    actions.push(Action::CommitLine { delay: 2 * delay });
    assert(actions@.take(actions@.len() - 1) =~= typed);
    actions
}

/// Schedules a text line by line, in order.
pub fn schedule(config: &Configuration, lines: &Vec<Vec<char>>, rng: &mut StdRng) -> (result: Vec<
    Vec<Action>,
>)
    ensures
        is_schedule(config@, lines@, result@),
{
    let mut result: Vec<Vec<Action>> = Vec::new();
    let mut i: usize = 0;
    while i < lines.len()
        invariant
            i <= lines.len(),
            result@.len() == i,
            forall|k: int|
                0 <= k < i ==> is_line_schedule(config@, lines@[k]@, #[trigger] result@[k]@),
        decreases lines.len() - i,
    {
        let actions = schedule_line(config, &lines[i], rng);
        result.push(actions);
        i += 1;
    }
    result
}

/// Actions that type a text do not end with a typo: the last of them, if
/// there is one, is a keystroke.
pub proof fn lemma_ends_with_keystroke(settings: Settings, text: Seq<char>, actions: Seq<Action>)
    requires
        types_text(settings, text, actions),
    ensures
        actions.len() > 0 ==> actions.last() is TypeChar,
        actions.len() == 0 <==> text.len() == 0,
{
}

/// The characters that a sequence of actions types from the text, in order:
/// those of its keystrokes, not those of its typos.
pub open spec fn typed_text(actions: Seq<Action>) -> Seq<char>
    decreases actions.len(),
{
    if actions.len() == 0 {
        Seq::empty()
    } else if actions.last() is TypeChar {
        typed_text(actions.drop_last()).push(actions.last()->c)
    } else {
        typed_text(actions.drop_last())
    }
}

/// Actions that type a text type its characters, all of them and in order.
pub proof fn lemma_types_the_text(settings: Settings, text: Seq<char>, actions: Seq<Action>)
    requires
        types_text(settings, text, actions),
    ensures
        typed_text(actions) == text,
    decreases text.len(),
{
    let n = actions.len() as int;
    if text.len() > 0 {
        let rest = if n >= 2 && actions[n - 2] is TypoEpisode {
            actions.take(n - 2)
        } else {
            actions.take(n - 1)
        };
        lemma_types_the_text(settings, text.drop_last(), rest);
        assert(actions.drop_last() =~= actions.take(n - 1));
        if n >= 2 && actions[n - 2] is TypoEpisode {
            assert(actions.drop_last().drop_last() =~= rest);
            assert(actions.drop_last().last() == actions[n - 2]);
        }
        assert(typed_text(actions.drop_last()) == text.drop_last());
        assert(text.drop_last().push(text.last()) =~= text);
    }
}

/// Where actions type a text, every typo among them is one that the
/// parameters allow, so that it erases as many characters as it types, and is
/// directly followed by the keystroke of a character of the text: that
/// character is typed only once the typo before it is made and erased.
pub proof fn lemma_typo_precedes_keystroke(
    settings: Settings,
    text: Seq<char>,
    actions: Seq<Action>,
    k: int,
)
    requires
        types_text(settings, text, actions),
        0 <= k < actions.len(),
        actions[k] is TypoEpisode,
    ensures
        is_typo_episode(settings, actions[k]),
        k + 1 < actions.len(),
        actions[k + 1] is TypeChar,
    decreases text.len(),
{
    let n = actions.len() as int;
    if n >= 2 && actions[n - 2] is TypoEpisode {
        if k < n - 2 {
            lemma_typo_precedes_keystroke(settings, text.drop_last(), actions.take(n - 2), k);
        }
    } else {
        lemma_typo_precedes_keystroke(settings, text.drop_last(), actions.take(n - 1), k);
    }
}

/// Where typos are impossible, the actions that type a text are the
/// keystrokes of its characters and nothing else.
pub proof fn lemma_without_typos(settings: Settings, text: Seq<char>, actions: Seq<Action>)
    requires
        settings.typo_ppm == 0,
        types_text(settings, text, actions),
    ensures
        actions.len() == text.len(),
        forall|i: int| 0 <= i < text.len() ==> is_keystroke(settings, #[trigger] actions[i], text[i]),
    decreases text.len(),
{
    let n = actions.len() as int;
    if text.len() > 0 {
        let rest = actions.take(n - 1);
        lemma_without_typos(settings, text.drop_last(), rest);
        assert forall|i: int| 0 <= i < text.len() implies is_keystroke(
            settings,
            #[trigger] actions[i],
            text[i],
        ) by {
            if i < text.len() - 1 {
                assert(actions[i] == rest[i]);
                assert(text[i] == text.drop_last()[i]);
            }
        }
    }
}

/// Where typos are certain, the actions that type a text alternate: for
/// each of its characters a typo, and then the keystroke of the character.
pub proof fn lemma_with_certain_typos(settings: Settings, text: Seq<char>, actions: Seq<Action>)
    requires
        settings.typo_ppm == PARTS_PER_MILLION,
        types_text(settings, text, actions),
    ensures
        actions.len() == 2 * text.len(),
        forall|j: int|
            0 <= j < actions.len() ==> if j % 2 == 0 {
                is_typo_episode(settings, #[trigger] actions[j])
            } else {
                is_keystroke(settings, actions[j], text[j / 2])
            },
    decreases text.len(),
{
    let n = actions.len() as int;
    if text.len() > 0 {
        let rest = actions.take(n - 2);
        lemma_with_certain_typos(settings, text.drop_last(), rest);
        assert forall|j: int| 0 <= j < actions.len() implies if j % 2 == 0 {
            is_typo_episode(settings, #[trigger] actions[j])
        } else {
            is_keystroke(settings, actions[j], text[j / 2])
        } by {
            if j < n - 2 {
                assert(actions[j] == rest[j]);
                assert(text[j / 2] == text.drop_last()[j / 2]);
            }
        }
    }
}

/// Where neither typos nor pauses are possible, the schedule of a line is
/// the keystrokes of its characters and the line terminator, and nothing
/// else.
pub proof fn lemma_plain_line(settings: Settings, line: Seq<char>, actions: Seq<Action>)
    requires
        settings.typo_ppm == 0,
        settings.sleep_ppm == 0,
        is_line_schedule(settings, line, actions),
    ensures
        actions.len() == line.len() + 1,
        forall|i: int| 0 <= i < line.len() ==> is_keystroke(settings, #[trigger] actions[i], line[i]),
        is_commit(settings, actions[line.len() as int]),
{
    let n = actions.len() as int;
    if line.len() > 0 {
        let typed = actions.take(n - 1);
        lemma_without_typos(settings, line, typed);
        assert forall|i: int| 0 <= i < line.len() implies is_keystroke(
            settings,
            #[trigger] actions[i],
            line[i],
        ) by {
            assert(actions[i] == typed[i]);
        }
    }
}

} // verus!
