//! How the virtual controller of a slot is set up, step by step.

use vstd::prelude::*;

verus! {

/// The step that is due, or how the setup ended.
#[derive(Clone, Copy, Debug, PartialEq, Eq, Structural)]
pub enum SetupStage {
    /// Connect to the driver.
    Connect,
    /// Plug the controller in.
    PlugIn,
    /// Wait until the controller is ready.
    WaitReady,
    /// Ask for rumble notifications.
    RequestRumble,
    /// The controller can be used; `rumble` tells whether notifications will come.
    Ready { rumble: bool },
    /// There is no controller.
    Failed,
}

impl SetupStage {
    /// The stage that follows the outcome of a step. Only rumble is dispensable.
    pub open spec fn following(self, ok: bool) -> SetupStage {
        match self {
            SetupStage::Connect => if ok {
                SetupStage::PlugIn
            } else {
                SetupStage::Failed
            },
            SetupStage::PlugIn => if ok {
                SetupStage::WaitReady
            } else {
                SetupStage::Failed
            },
            SetupStage::WaitReady => if ok {
                SetupStage::RequestRumble
            } else {
                SetupStage::Failed
            },
            SetupStage::RequestRumble => SetupStage::Ready { rumble: ok },
            SetupStage::Ready { rumble } => SetupStage::Ready { rumble },
            SetupStage::Failed => SetupStage::Failed,
        }
    }

    /// Moves on after a step succeeded or failed.
    pub fn advance(self, ok: bool) -> (next: SetupStage)
        ensures
            next == self.following(ok),
    {
        match self {
            SetupStage::Connect => if ok {
                SetupStage::PlugIn
            } else {
                SetupStage::Failed
            },
            SetupStage::PlugIn => if ok {
                SetupStage::WaitReady
            } else {
                SetupStage::Failed
            },
            SetupStage::WaitReady => if ok {
                SetupStage::RequestRumble
            } else {
                SetupStage::Failed
            },
            SetupStage::RequestRumble => SetupStage::Ready { rumble: ok },
            SetupStage::Ready { rumble } => SetupStage::Ready { rumble },
            SetupStage::Failed => SetupStage::Failed,
        }
    }
}

/// The stage after the outcomes of some steps, from the start.
pub open spec fn stage_after(outcomes: Seq<bool>) -> SetupStage
    decreases outcomes.len(),
{
    if outcomes.len() == 0 {
        SetupStage::Connect
    } else {
        stage_after(outcomes.drop_last()).following(outcomes.last())
    }
}

/// Four steps decide: the controller can be used exactly if the first three
/// succeeded, and rumble comes exactly if the fourth did too.
pub proof fn setup_is_decided_by_its_steps(connect: bool, plug_in: bool, ready: bool, rumble: bool)
    ensures
        stage_after(seq![connect, plug_in, ready, rumble]) == (if connect && plug_in && ready {
            SetupStage::Ready { rumble }
        } else {
            SetupStage::Failed
        }),
{
    let all = seq![connect, plug_in, ready, rumble];
    assert(all.drop_last() =~= seq![connect, plug_in, ready]);
    assert(seq![connect, plug_in, ready].drop_last() =~= seq![connect, plug_in]);
    assert(seq![connect, plug_in].drop_last() =~= seq![connect]);
    assert(seq![connect].drop_last() =~= Seq::<bool>::empty());
    reveal_with_fuel(stage_after, 5);
}

/// The steps come in their order: connect, plug in, wait, ask for rumble. Each of the first
/// three ends the setup if it fails.
pub proof fn steps_come_in_order(ok: bool)
    ensures
        stage_after(seq![]) == SetupStage::Connect,
        stage_after(seq![ok]) == (if ok {
            SetupStage::PlugIn
        } else {
            SetupStage::Failed
        }),
        stage_after(seq![true, ok]) == (if ok {
            SetupStage::WaitReady
        } else {
            SetupStage::Failed
        }),
        stage_after(seq![true, true, ok]) == (if ok {
            SetupStage::RequestRumble
        } else {
            SetupStage::Failed
        }),
{
    assert(seq![ok].drop_last() =~= Seq::<bool>::empty());
    assert(seq![true, ok].drop_last() =~= seq![true]);
    assert(seq![true].drop_last() =~= Seq::<bool>::empty());
    assert(seq![true, true, ok].drop_last() =~= seq![true, true]);
    assert(seq![true, true].drop_last() =~= seq![true]);
    reveal_with_fuel(stage_after, 5);
}

/// A setup that ended stays as it ended.
pub proof fn ended_setup_stays(outcomes: Seq<bool>, more: Seq<bool>)
    requires
        stage_after(outcomes) == SetupStage::Failed || (exists|rumble: bool|
            stage_after(outcomes) == (SetupStage::Ready { rumble })),
    ensures
        stage_after(outcomes + more) == stage_after(outcomes),
    decreases more.len(),
{
    if more.len() == 0 {
        assert(outcomes + more =~= outcomes);
    } else {
        ended_setup_stays(outcomes, more.drop_last());
        assert((outcomes + more).drop_last() =~= outcomes + more.drop_last());
    }
}

} // verus!
