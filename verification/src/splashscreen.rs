//! Handing over from the splash screen to the main window.
//!
//! The splash screen is closed if there is one, then the main window is shown
//! if there is one. A window that does not exist is passed over. A window that
//! exists and cannot be closed or shown ends the hand-over as failed.
//!
//! The caller does the work on the windows. It starts at [`Step::first`], does
//! what the step asks for, and gives the outcome to [`Step::next`], until the
//! step is final.

use vstd::prelude::*;

verus! {

/// The label of the splash screen.
pub const SPLASHSCREEN_LABEL: &'static str = "splashscreen";

/// The label of the main window.
pub const MAIN_LABEL: &'static str = "main";

/// What the caller is asked to do next.
#[derive(Clone, Copy, Debug, PartialEq, Eq, Structural)]
pub enum Step {
    /// Look up the splash screen.
    FindSplashscreen,
    /// Close the splash screen that was found.
    CloseSplashscreen,
    /// Look up the main window.
    FindMain,
    /// Show the main window that was found.
    ShowMain,
    /// Nothing is left to do.
    Done,
    /// A window could not be closed or shown: the caller gives up.
    Failed,
}

impl Step {
    /// The step that follows this one. For a lookup, `ok` says whether the
    /// window exists; for closing and showing, whether it worked.
    pub open spec fn after(self, ok: bool) -> Step {
        match self {
            Step::FindSplashscreen => if ok {
                Step::CloseSplashscreen
            } else {
                Step::FindMain
            },
            Step::CloseSplashscreen => if ok {
                Step::FindMain
            } else {
                Step::Failed
            },
            Step::FindMain => if ok {
                Step::ShowMain
            } else {
                Step::Done
            },
            Step::ShowMain => if ok {
                Step::Done
            } else {
                Step::Failed
            },
            Step::Done => Step::Done,
            Step::Failed => Step::Failed,
        }
    }

    /// Whether the hand-over has ended with this step.
    pub open spec fn ended(self) -> bool {
        self is Done || self is Failed
    }

    /// The label of the window that the step is about, where it is about one.
    pub open spec fn window(self) -> Option<Seq<char>> {
        match self {
            Step::FindSplashscreen | Step::CloseSplashscreen => Some(SPLASHSCREEN_LABEL@),
            Step::FindMain | Step::ShowMain => Some(MAIN_LABEL@),
            Step::Done | Step::Failed => None,
        }
    }

    /// How many steps can still follow this one, at most.
    pub open spec fn steps_left(self) -> nat {
        match self {
            Step::FindSplashscreen => 4,
            Step::CloseSplashscreen => 3,
            Step::FindMain => 2,
            Step::ShowMain => 1,
            Step::Done | Step::Failed => 0,
        }
    }

    /// The step at which every hand-over starts.
    pub fn first() -> (step: Step)
        ensures
            step == Step::FindSplashscreen,
    {
        Step::FindSplashscreen
    }

    /// The step that follows once the caller has done what this one asks for.
    pub fn next(self, ok: bool) -> (step: Step)
        ensures
            step == self.after(ok),
    {
        match self {
            Step::FindSplashscreen => if ok {
                Step::CloseSplashscreen
            } else {
                Step::FindMain
            },
            Step::CloseSplashscreen => if ok {
                Step::FindMain
            } else {
                Step::Failed
            },
            Step::FindMain => if ok {
                Step::ShowMain
            } else {
                Step::Done
            },
            Step::ShowMain => if ok {
                Step::Done
            } else {
                Step::Failed
            },
            Step::Done => Step::Done,
            Step::Failed => Step::Failed,
        }
    }

    /// Whether nothing is left to do, for better or worse.
    pub fn is_final(self) -> (ended: bool)
        ensures
            ended == self.ended(),
    {
        match self {
            Step::Done | Step::Failed => true,
            _ => false,
        }
    }

    /// The label of the window to look up, close or show.
    pub fn label(self) -> (label: Option<&'static str>)
        ensures
            label is Some == self.window() is Some,
            label matches Some(text) ==> self.window() == Some(text@),
    {
        match self {
            Step::FindSplashscreen | Step::CloseSplashscreen => Some(SPLASHSCREEN_LABEL),
            Step::FindMain | Step::ShowMain => Some(MAIN_LABEL),
            Step::Done | Step::Failed => None,
        }
    }
}

/// Without a splash screen nothing fails: the hand-over goes on to the main
/// window, shows it if it exists, and is done if it does not.
pub proof fn lemma_missing_splashscreen_is_passed_over(main_exists: bool)
    ensures
        Step::FindSplashscreen.after(false) == Step::FindMain,
        main_exists ==> Step::FindSplashscreen.after(false).after(main_exists) == Step::ShowMain,
        !main_exists ==> Step::FindSplashscreen.after(false).after(main_exists) == Step::Done,
        Step::FindSplashscreen.after(false).after(main_exists).after(true) == Step::Done,
{
}

/// A lookup never fails the hand-over, whether the window exists or not. Only
/// a window that exists and cannot be closed or shown does.
pub proof fn lemma_only_a_refusal_fails(step: Step, ok: bool)
    ensures
        step.after(ok) is Failed <==> step is Failed || (!ok && (step is CloseSplashscreen
            || step is ShowMain)),
{
}

/// The splash screen is closed before the main window is looked up, and the
/// main window is shown only after it was found.
pub proof fn lemma_order_of_windows(step: Step, ok: bool)
    ensures
        step.after(ok) is CloseSplashscreen <==> step is FindSplashscreen && ok,
        step.after(ok) is FindMain <==> (step is FindSplashscreen && !ok) || (step
            is CloseSplashscreen && ok),
        step.after(ok) is ShowMain <==> step is FindMain && ok,
        step.after(ok) !is FindSplashscreen,
{
}

/// Every step that is not final leads closer to the end, so a hand-over takes
/// four steps at most. A final step stays as it is.
pub proof fn lemma_hand_over_ends(step: Step, ok: bool)
    ensures
        !step.ended() ==> step.after(ok).steps_left() < step.steps_left(),
        step.ended() ==> step.after(ok) == step,
        step.ended() <==> step.steps_left() == 0,
        step.steps_left() <= Step::FindSplashscreen.steps_left(),
        Step::FindSplashscreen.steps_left() == 4,
{
}

} // verus!
