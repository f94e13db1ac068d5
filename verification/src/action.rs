//! The units of scheduled work, and the steps a sink takes to carry them out.
//!
//! An `Action` is what the scheduler decides: type a character, make and
//! correct a typo, pause, end the line. A `Step` is what remains to be done
//! once all is decided: wait, or hand one key to the sink.

use crate::key::Key;
use vstd::prelude::*;

verus! {

/// One extra character of a typo, and the wait that follows its typing.
#[derive(Clone, Copy, Debug, PartialEq, Eq, Structural)]
pub struct Stroke {
    /// The character typed by mistake.
    pub c: char,
    /// Milliseconds to wait once it is typed.
    pub delay: u64,
}

/// One unit of scheduled work. All times are in milliseconds.
#[derive(Debug, PartialEq, Eq)]
pub enum Action {
    /// Stay idle for `millis`, sending nothing.
    Pause { millis: u64 },
    /// Type each stroke of `typed` and wait after it, then erase as many
    /// characters as `erase_delays` has entries, waiting after each.
    TypoEpisode { typed: Vec<Stroke>, erase_delays: Vec<u64> },
    /// Wait for `delay`, then type the character `c` of the text.
    TypeChar { c: char, delay: u64 },
    /// Wait for `delay`, then end the line.
    CommitLine { delay: u64 },
}

/// One elementary step of a run.
#[derive(Clone, Copy, Debug, PartialEq, Eq, Structural)]
pub enum Step {
    /// Wait for so many milliseconds.
    Suspend(u64),
    /// Hand a character to the sink.
    EmitCharacter(char),
    /// Hand a control key to the sink.
    EmitControlKey(Key),
}

/// The steps that type the strokes of a typo: each character, then its wait.
pub open spec fn typing_steps(typed: Seq<Stroke>) -> Seq<Step> {
    Seq::new(
        2 * typed.len(),
        |k: int|
            if k % 2 == 0 {
                Step::EmitCharacter(typed[k / 2].c)
            } else {
                Step::Suspend(typed[k / 2].delay)
            },
    )
}

/// The steps that erase a typo: one backspace per entry, then its wait.
pub open spec fn erasing_steps(erase_delays: Seq<u64>) -> Seq<Step> {
    Seq::new(
        2 * erase_delays.len(),
        |k: int|
            if k % 2 == 0 {
                Step::EmitControlKey(Key::Backspace)
            } else {
                Step::Suspend(erase_delays[k / 2])
            },
    )
}

impl Action {
    /// The steps that carry the action out, in order.
    pub open spec fn expansion(self) -> Seq<Step> {
        match self {
            Action::Pause { millis } => seq![Step::Suspend(millis)],
            Action::TypoEpisode { typed, erase_delays } => typing_steps(typed@) + erasing_steps(
                erase_delays@,
            ),
            Action::TypeChar { c, delay } => seq![Step::Suspend(delay), Step::EmitCharacter(c)],
            Action::CommitLine { delay } => seq![
                Step::Suspend(delay),
                Step::EmitControlKey(Key::Return),
            ],
        }
    }

    /// Expands the action into the steps that carry it out.
    pub fn steps(&self) -> (steps: Vec<Step>)
        ensures
            steps@ == self.expansion(),
    {
        let mut steps: Vec<Step> = Vec::new();
        match self {
            Action::Pause { millis } => {
                steps.push(Step::Suspend(*millis));
            },
            Action::TypoEpisode { typed, erase_delays } => {
                let mut i: usize = 0;
                while i < typed.len()
                    invariant
                        i <= typed.len(),
                        steps@.len() == 2 * i,
                        forall|k: int| 0 <= k < 2 * i ==> steps@[k] == typing_steps(typed@)[k],
                    decreases typed.len() - i,
                {
                    steps.push(Step::EmitCharacter(typed[i].c));
                    steps.push(Step::Suspend(typed[i].delay));
                    i += 1;
                }
                assert(steps@ =~= typing_steps(typed@));
                let mut j: usize = 0;
                while j < erase_delays.len()
                    invariant
                        j <= erase_delays.len(),
                        steps@.len() == 2 * typed.len() + 2 * j,
                        steps@.subrange(0, 2 * typed.len() as int) == typing_steps(typed@),
                        forall|k: int|
                            0 <= k < 2 * j ==> steps@[2 * typed.len() + k] == erasing_steps(
                                erase_delays@,
                            )[k],
                    decreases erase_delays.len() - j,
                {
                    steps.push(Step::EmitControlKey(Key::Backspace));
                    steps.push(Step::Suspend(erase_delays[j]));
                    j += 1;
                }
                assert(steps@ =~= steps@.subrange(0, 2 * typed.len() as int) + erasing_steps(
                    erase_delays@,
                ));
            },
            Action::TypeChar { c, delay } => {
                steps.push(Step::Suspend(*delay));
                steps.push(Step::EmitCharacter(*c));
            },
            Action::CommitLine { delay } => {
                steps.push(Step::Suspend(*delay));
                steps.push(Step::EmitControlKey(Key::Return));
            },
        }
        steps
    }
}

/// The steps that carry out a sequence of actions, one action after the
/// other.
pub open spec fn steps_of(actions: Seq<Action>) -> Seq<Step>
    decreases actions.len(),
{
    if actions.len() == 0 {
        Seq::empty()
    } else {
        steps_of(actions.drop_last()) + actions.last().expansion()
    }
}

/// Expands a sequence of actions into the steps that carry them out, in
/// order.
pub fn expand(actions: &Vec<Action>) -> (steps: Vec<Step>)
    ensures
        steps@ == steps_of(actions@),
{
    let mut steps: Vec<Step> = Vec::new();
    let mut i: usize = 0;
    assert(actions@.take(0) =~= Seq::<Action>::empty());
    while i < actions.len()
        invariant
            i <= actions.len(),
            steps@ == steps_of(actions@.take(i as int)),
        decreases actions.len() - i,
    {
        let mut next = actions[i].steps();
        steps.append(&mut next);
        assert(actions@.take(i + 1).drop_last() =~= actions@.take(i as int));
        i += 1;
    }
    assert(actions@.take(i as int) =~= actions@);
    steps
}

/// A typo is carried out as its characters typed one by one, each followed
/// by its wait, and then one erasure per entry of `erase_delays`, each
/// followed by its wait: with as many erasures as characters, all that was
/// typed is erased again before anything else happens.
pub proof fn lemma_typo_is_typed_then_erased(action: Action)
    requires
        action is TypoEpisode,
    ensures
        ({
            let typed = action->typed@;
            let erase_delays = action->erase_delays@;
            let steps = action.expansion();
            &&& steps.len() == 2 * typed.len() + 2 * erase_delays.len()
            &&& forall|i: int|
                #![trigger typed[i]]
                0 <= i < typed.len() ==> steps[2 * i] == Step::EmitCharacter(typed[i].c) && steps[2
                    * i + 1] == Step::Suspend(typed[i].delay)
            &&& forall|i: int|
                #![trigger erase_delays[i]]
                0 <= i < erase_delays.len() ==> steps[2 * typed.len() + 2 * i]
                    == Step::EmitControlKey(Key::Backspace) && steps[2 * typed.len() + 2 * i + 1]
                    == Step::Suspend(erase_delays[i])
        }),
{
}

} // verus!
