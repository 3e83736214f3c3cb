//! The playback state machine: current status, the retained display line,
//! and the decision, on each property change, of what to print.

use vstd::prelude::*;
use crate::events::{ChangeView, PropertyChange};
use crate::formatter::{format_metadata, formatted, lemma_formatted_len, META_STR_MAX_LEN};

verus! {

/// Whether the active service last reported itself playing or paused.
#[derive(Clone, Copy, Debug, PartialEq, Eq, Structural)]
pub enum PlaybackStatus {
    Playing,
    Paused,
}

/// Spec-level image of the state machine.
#[verifier::ext_equal]
pub struct MachineView {
    pub status: PlaybackStatus,
    pub display_line: Seq<char>,
}

/// What one processed entry yields: the next state, the lines for standard
/// output, and the diagnostics for the error channel.
#[verifier::ext_equal]
pub struct StepView {
    pub state: MachineView,
    pub lines: Seq<Seq<char>>,
    pub diags: Seq<Seq<char>>,
}

/// Effect of a `"PlaybackStatus"` entry carrying `value`. `"Paused"` always
/// prints the literal line `"Paused"`; `"Playing"` reprints a non-empty
/// retained display line; any other value changes nothing and yields a
/// diagnostic.
pub open spec fn status_step(st: MachineView, value: Seq<char>) -> StepView {
    if value == "Paused"@ {
        StepView {
            state: MachineView { status: PlaybackStatus::Paused, display_line: st.display_line },
            lines: seq!["Paused"@],
            diags: Seq::empty(),
        }
    } else if value == "Playing"@ {
        StepView {
            state: MachineView { status: PlaybackStatus::Playing, display_line: st.display_line },
            lines: if st.display_line.len() > 0 { seq![st.display_line] } else { Seq::empty() },
            diags: Seq::empty(),
        }
    } else {
        StepView { state: st, lines: Seq::empty(), diags: seq!["unknown status "@ + value] }
    }
}

/// Effect of a `"Metadata"` entry. Only an entry carrying both fields
/// replaces the display line; a missing field yields its diagnostic and
/// keeps the line. Either way the (possibly unchanged) line is printed
/// exactly when the status is `Playing`.
pub open spec fn metadata_step(
    st: MachineView,
    title: Option<Seq<char>>,
    artist: Option<Seq<Seq<char>>>,
) -> StepView {
    let new_line = if title is Some && artist is Some {
        formatted(title->0, artist->0)
    } else {
        st.display_line
    };
    StepView {
        state: MachineView { status: st.status, display_line: new_line },
        lines: if st.status is Playing { seq![new_line] } else { Seq::empty() },
        diags: (if title is None { seq!["no title"@] } else { Seq::<Seq<char>>::empty() })
            + (if artist is None { seq!["no artist"@] } else { Seq::<Seq<char>>::empty() }),
    }
}

/// Effect of one changed entry on the machine.
pub open spec fn step(st: MachineView, c: ChangeView) -> StepView {
    match c {
        ChangeView::PlaybackStatus(value) => status_step(st, value),
        ChangeView::Metadata { title, artist } => metadata_step(st, title, artist),
        ChangeView::Other => StepView { state: st, lines: Seq::empty(), diags: Seq::empty() },
    }
}

/// All entries of one notification applied in order, their output lines and
/// diagnostics concatenated.
pub open spec fn run_steps(st: MachineView, changes: Seq<ChangeView>) -> StepView
    decreases changes.len(),
{
    if changes.len() == 0 {
        StepView { state: st, lines: Seq::empty(), diags: Seq::empty() }
    } else {
        let prev = run_steps(st, changes.drop_last());
        let last = step(prev.state, changes.last());
        StepView {
            state: last.state,
            lines: prev.lines + last.lines,
            diags: prev.diags + last.diags,
        }
    }
}

/// Playback status and the retained display line for the active service.
pub struct PlaybackStateMachine {
    pub status: PlaybackStatus,
    pub display_line: String,
}

impl View for PlaybackStateMachine {
    type V = MachineView;

    open spec fn view(&self) -> MachineView {
        MachineView { status: self.status, display_line: self.display_line@ }
    }
}

impl PlaybackStateMachine {
    /// A fresh machine: paused, with an empty display line.
    pub fn new() -> (r: PlaybackStateMachine)
        ensures
            r@ == (MachineView {
                status: PlaybackStatus::Paused,
                display_line: Seq::<char>::empty(),
            }),
            wf(r@),
    {
        PlaybackStateMachine { status: PlaybackStatus::Paused, display_line: String::new() }
    }

    fn apply_change(
        &mut self,
        change: &PropertyChange,
        lines: &mut Vec<String>,
        diags: &mut Vec<String>,
    )
        ensures
            ({
                let s = step(old(self)@, change.deep_view());
                &&& final(self)@ == s.state
                &&& final(lines).deep_view() == old(lines).deep_view() + s.lines
                &&& final(diags).deep_view() == old(diags).deep_view() + s.diags
            }),
    {
        let ghost s = step(old(self)@, change.deep_view());
        match change {
            PropertyChange::PlaybackStatus(value) => {
                let paused = String::from_str("Paused");
                let playing = String::from_str("Playing");
                if *value == paused {
                    self.status = PlaybackStatus::Paused;
                    lines.push(paused);
                } else if *value == playing {
                    self.status = PlaybackStatus::Playing;
                    if !self.display_line.as_str().is_empty() {
                        lines.push(self.display_line.clone());
                    }
                } else {
                    let mut d = String::from_str("unknown status ");
                    d.append(value.as_str());
                    diags.push(d);
                }
            }
            PropertyChange::Metadata(m) => {
                match (&m.title, &m.artist) {
                    (Some(title), Some(artist)) => {
                        self.display_line = format_metadata(title.as_str(), artist);
                    }
                    (Some(_), None) => {
                        diags.push(String::from_str("no artist"));
                    }
                    (None, Some(_)) => {
                        diags.push(String::from_str("no title"));
                    }
                    (None, None) => {
                        diags.push(String::from_str("no title"));
                        diags.push(String::from_str("no artist"));
                    }
                }
                if self.status == PlaybackStatus::Playing {
                    lines.push(self.display_line.clone());
                }
            }
            PropertyChange::Other => {}
        }
        proof {
            assert(self@ =~= s.state);
            assert(lines.deep_view() =~= old(lines).deep_view() + s.lines);
            assert(diags.deep_view() =~= old(diags).deep_view() + s.diags);
        }
    }

    /// Process one property-change notification: apply each changed entry in
    /// order. Returns the lines for standard output and the diagnostics for
    /// the error channel, in emission order.
    pub fn on_property_change(&mut self, changes: &Vec<PropertyChange>) -> (r: (
        Vec<String>,
        Vec<String>,
    ))
        ensures
            ({
                let s = run_steps(old(self)@, changes.deep_view());
                &&& final(self)@ == s.state
                &&& r.0.deep_view() == s.lines
                &&& r.1.deep_view() == s.diags
            }),
    {
        let mut lines: Vec<String> = Vec::new();
        let mut diags: Vec<String> = Vec::new();
        let mut i: usize = 0;
        proof {
            assert(lines.deep_view() =~= Seq::<Seq<char>>::empty());
            assert(diags.deep_view() =~= Seq::<Seq<char>>::empty());
        }
        while i < changes.len()
            invariant
                i <= changes.len(),
                ({
                    let s = run_steps(old(self)@, changes.deep_view().take(i as int));
                    &&& self@ == s.state
                    &&& lines.deep_view() == s.lines
                    &&& diags.deep_view() == s.diags
                }),
            decreases changes.len() - i,
        {
            self.apply_change(&changes[i], &mut lines, &mut diags);
            proof {
                let dv = changes.deep_view();
                assert(dv.take(i + 1).drop_last() =~= dv.take(i as int));
                assert(dv.take(i + 1).last() == dv[i as int]);
            }
            i = i + 1;
        }
        proof {
            assert(changes.deep_view().take(changes@.len() as int) =~= changes.deep_view());
        }
        (lines, diags)
    }
}

/// A machine is well formed while its display line fits in the truncation
/// bound plus the three marker characters.
pub open spec fn wf(st: MachineView) -> bool {
    st.display_line.len() <= META_STR_MAX_LEN + 3
}

/// Every step preserves well-formedness: the display line never grows past
/// `META_STR_MAX_LEN + 3` characters.
pub proof fn lemma_step_preserves_wf(st: MachineView, c: ChangeView)
    requires
        wf(st),
    ensures
        wf(step(st, c).state),
{
    match c {
        ChangeView::Metadata { title: Some(t), artist: Some(a) } => {
            lemma_formatted_len(t, a);
        }
        _ => {}
    }
}

/// A whole notification preserves well-formedness.
pub proof fn lemma_run_preserves_wf(st: MachineView, changes: Seq<ChangeView>)
    requires
        wf(st),
    ensures
        wf(run_steps(st, changes).state),
    decreases changes.len(),
{
    if changes.len() > 0 {
        lemma_run_preserves_wf(st, changes.drop_last());
        lemma_step_preserves_wf(run_steps(st, changes.drop_last()).state, changes.last());
    }
}

/// A `"Paused"` status value always emits the literal line `"Paused"`,
/// exactly once, whatever the prior state; it pauses the machine, keeps the
/// display line, and yields no diagnostic.
pub proof fn lemma_paused_emits_once(st: MachineView)
    ensures
        ({
            let s = step(st, ChangeView::PlaybackStatus("Paused"@));
            &&& s.lines == seq!["Paused"@]
            &&& s.diags == Seq::<Seq<char>>::empty()
            &&& s.state.status == PlaybackStatus::Paused
            &&& s.state.display_line == st.display_line
        }),
{
}

/// A metadata entry carrying a title but no artist leaves the display line
/// unchanged and yields the `"no artist"` diagnostic; while paused it prints
/// nothing at all.
pub proof fn lemma_partial_metadata_keeps_line(st: MachineView, title: Seq<char>)
    requires
        st.status == PlaybackStatus::Paused,
    ensures
        ({
            let s = step(st, ChangeView::Metadata { title: Some(title), artist: None });
            &&& s.state == st
            &&& s.lines == Seq::<Seq<char>>::empty()
            &&& s.diags =~= seq!["no artist"@]
        }),
{
    let s = step(st, ChangeView::Metadata { title: Some(title), artist: None });
    assert(s.state =~= st);
}

} // verus!
