//! Which terminal modes the render loop holds, so that each one taken is
//! given back exactly once, on whichever path the loop ends.

use vstd::prelude::*;

verus! {

/// A terminal mode the render loop takes for itself.
#[derive(Clone, Copy, Debug, PartialEq, Eq, Structural)]
pub enum TerminalMode {
    RawInput,
    AlternateScreen,
    MouseCapture,
}

/// The terminal modes taken so far and not yet given back.
pub struct TerminalSession {
    raw_input: bool,
    alternate_screen: bool,
    mouse_capture: bool,
}

/// The modes to give back for a session holding the given modes, in the
/// order raw input, alternate screen, mouse capture.
pub open spec fn release_plan(raw: bool, alt: bool, mouse: bool) -> Seq<TerminalMode> {
    (if raw { seq![TerminalMode::RawInput] } else { Seq::empty() }) + (if alt {
        seq![TerminalMode::AlternateScreen]
    } else {
        Seq::empty()
    }) + (if mouse { seq![TerminalMode::MouseCapture] } else { Seq::empty() })
}

/// The modes given back over `k` releases of a session holding the given
/// modes: the first release gives back all of them and leaves none held.
pub open spec fn releases(raw: bool, alt: bool, mouse: bool, k: nat) -> Seq<TerminalMode>
    decreases k,
{
    if k == 0 {
        Seq::empty()
    } else {
        release_plan(raw, alt, mouse) + releases(false, false, false, (k - 1) as nat)
    }
}

impl TerminalSession {
    pub closed spec fn holds(&self, m: TerminalMode) -> bool {
        match m {
            TerminalMode::RawInput => self.raw_input,
            TerminalMode::AlternateScreen => self.alternate_screen,
            TerminalMode::MouseCapture => self.mouse_capture,
        }
    }

    /// A session that holds no mode yet.
    pub fn new() -> (s: TerminalSession)
        ensures
            forall|m: TerminalMode| !s.holds(m),
    {
        TerminalSession { raw_input: false, alternate_screen: false, mouse_capture: false }
    }

    /// Records that `m` was taken.
    pub fn acquired(&mut self, m: TerminalMode)
        ensures
            final(self).holds(m),
            forall|n: TerminalMode| n != m ==> final(self).holds(n) == old(self).holds(n),
    {
        match m {
            TerminalMode::RawInput => self.raw_input = true,
            TerminalMode::AlternateScreen => self.alternate_screen = true,
            TerminalMode::MouseCapture => self.mouse_capture = true,
        }
    }

    /// Whether `m` is held.
    pub fn is_held(&self, m: TerminalMode) -> (b: bool)
        ensures
            b == self.holds(m),
    {
        match m {
            TerminalMode::RawInput => self.raw_input,
            TerminalMode::AlternateScreen => self.alternate_screen,
            TerminalMode::MouseCapture => self.mouse_capture,
        }
    }

    /// The modes to give back now, in order; afterwards none is held, so a
    /// later release gives back nothing.
    pub fn release(&mut self) -> (r: Vec<TerminalMode>)
        ensures
            r@ == release_plan(
                old(self).holds(TerminalMode::RawInput),
                old(self).holds(TerminalMode::AlternateScreen),
                old(self).holds(TerminalMode::MouseCapture),
            ),
            forall|m: TerminalMode| !final(self).holds(m),
    {
        let mut r: Vec<TerminalMode> = Vec::new();
        if self.raw_input {
            r.push(TerminalMode::RawInput);
        }
        if self.alternate_screen {
            r.push(TerminalMode::AlternateScreen);
        }
        if self.mouse_capture {
            r.push(TerminalMode::MouseCapture);
        }
        self.raw_input = false;
        self.alternate_screen = false;
        self.mouse_capture = false;
        proof {
            assert(r@ =~= release_plan(
                old(self).raw_input,
                old(self).alternate_screen,
                old(self).mouse_capture,
            ));
        }
        r
    }
}

/// However many times the session is released once raw input and the
/// alternate screen were taken (once on each exit path, say), raw input is
/// given back exactly once and the alternate screen exactly once, in that
/// order, followed by mouse capture when that was taken.
pub proof fn lemma_restored_once(mouse: bool, k: nat)
    requires
        k >= 1,
    ensures
        releases(true, true, mouse, k) == seq![TerminalMode::RawInput, TerminalMode::AlternateScreen]
            + (if mouse { seq![TerminalMode::MouseCapture] } else { Seq::empty() }),
{
    lemma_nothing_held_releases_nothing((k - 1) as nat);
    assert(release_plan(true, true, mouse) =~= seq![
        TerminalMode::RawInput,
        TerminalMode::AlternateScreen,
    ] + (if mouse { seq![TerminalMode::MouseCapture] } else { Seq::empty() }));
    assert(releases(true, true, mouse, k) =~= release_plan(true, true, mouse));
}

/// Releasing a session that holds nothing gives back nothing.
pub proof fn lemma_nothing_held_releases_nothing(k: nat)
    ensures
        releases(false, false, false, k) == Seq::<TerminalMode>::empty(),
    decreases k,
{
    if k > 0 {
        lemma_nothing_held_releases_nothing((k - 1) as nat);
        assert(release_plan(false, false, false) =~= Seq::<TerminalMode>::empty());
        assert(releases(false, false, false, k) =~= Seq::<TerminalMode>::empty());
    }
}

} // verus!
