//! Writing the translation shown in the bubble back into the window it came
//! from, as a state machine: the caller performs each action and reports what
//! came of it.

use crate::bubble::pair_view;
use crate::selection::TargetHwnd;
use crate::text::cat;
use vstd::prelude::*;

verus! {

broadcast use vstd::string::group_string_axioms;

/// Where a write-back stands.
#[derive(Debug, Clone, Copy, PartialEq, Eq, Structural)]
pub enum ReplaceStage {
    Ready,
    /// Waiting to learn whether the target window still exists.
    CheckingTarget,
    /// Waiting for the translation to be written to the clipboard.
    WritingClipboard,
    /// Waiting for the paste into the target window.
    Pasting,
    Done,
}

/// Something the caller is asked to do.
#[derive(Debug)]
pub enum ReplaceAction {
    /// Show the error in the bubble and let it hide after the configured time.
    ShowError(String),
    /// Tell whether the window still exists, as `TargetChecked`.
    CheckTarget(TargetHwnd),
    /// Write the text to the clipboard and report it as `ClipboardWritten`.
    WriteClipboard(String),
    HideBubble,
    /// Wait this many milliseconds.
    Pause(u64),
    /// Paste into the window and report it as `Pasted`.
    Paste(TargetHwnd),
    ClearSession,
    /// The write-back is over with this outcome.
    Finish(Result<(), String>),
}

/// An action with each text taken by its characters.
pub enum ReplaceActionView {
    ShowError(Seq<char>),
    CheckTarget(TargetHwnd),
    WriteClipboard(Seq<char>),
    HideBubble,
    Pause(u64),
    Paste(TargetHwnd),
    ClearSession,
    Finish(Result<(), Seq<char>>),
}

/// The view of an outcome.
pub open spec fn result_view(r: Result<(), String>) -> Result<(), Seq<char>> {
    match r {
        Ok(()) => Ok(()),
        Err(e) => Err(e@),
    }
}

impl View for ReplaceAction {
    type V = ReplaceActionView;

    open spec fn view(&self) -> ReplaceActionView {
        match self {
            ReplaceAction::ShowError(s) => ReplaceActionView::ShowError(s@),
            ReplaceAction::CheckTarget(t) => ReplaceActionView::CheckTarget(*t),
            ReplaceAction::WriteClipboard(s) => ReplaceActionView::WriteClipboard(s@),
            ReplaceAction::HideBubble => ReplaceActionView::HideBubble,
            ReplaceAction::Pause(ms) => ReplaceActionView::Pause(*ms),
            ReplaceAction::Paste(t) => ReplaceActionView::Paste(*t),
            ReplaceAction::ClearSession => ReplaceActionView::ClearSession,
            ReplaceAction::Finish(r) => ReplaceActionView::Finish(result_view(*r)),
        }
    }
}

/// What came of an action.
#[derive(Debug)]
pub enum ReplaceEvent {
    /// The write-back hotkey was pressed: whether the bubble is shown, and the
    /// write-back session, if any.
    Start { bubble_visible: bool, session: Option<(TargetHwnd, String)> },
    TargetChecked(bool),
    ClipboardWritten(Result<(), String>),
    Pasted(Result<(), String>),
}

/// An event with each text taken by its characters.
pub enum ReplaceEventView {
    Start { bubble_visible: bool, session: Option<(TargetHwnd, Seq<char>)> },
    TargetChecked(bool),
    ClipboardWritten(Result<(), Seq<char>>),
    Pasted(Result<(), Seq<char>>),
}

impl View for ReplaceEvent {
    type V = ReplaceEventView;

    open spec fn view(&self) -> ReplaceEventView {
        match self {
            ReplaceEvent::Start { bubble_visible, session } => ReplaceEventView::Start {
                bubble_visible: *bubble_visible,
                session: pair_view(*session),
            },
            ReplaceEvent::TargetChecked(b) => ReplaceEventView::TargetChecked(*b),
            ReplaceEvent::ClipboardWritten(r) => ReplaceEventView::ClipboardWritten(result_view(*r)),
            ReplaceEvent::Pasted(r) => ReplaceEventView::Pasted(result_view(*r)),
        }
    }
}

/// One write-back.
#[derive(Debug)]
pub struct ReplaceFlow {
    pub stage: ReplaceStage,
    pub target: TargetHwnd,
    pub text: String,
}

/// A write-back with its text taken by its characters.
pub struct ReplaceFlowView {
    pub stage: ReplaceStage,
    pub target: TargetHwnd,
    pub text: Seq<char>,
}

impl View for ReplaceFlow {
    type V = ReplaceFlowView;

    open spec fn view(&self) -> ReplaceFlowView {
        ReplaceFlowView { stage: self.stage, target: self.target, text: self.text@ }
    }
}

/// The error when there is no translation to write back.
pub open spec fn no_translation_spec() -> Seq<char> {
    "暂无译文可替换，请先完成翻译"@
}

/// The error when the target window is gone.
pub open spec fn target_closed_spec() -> Seq<char> {
    "目标窗口已关闭，请重新选中文本后再翻译"@
}

/// The whole machine: the next write-back and the actions for an event. An
/// event that does not belong to the stage changes nothing.
pub open spec fn replace_step_spec(f: ReplaceFlowView, e: ReplaceEventView) -> (ReplaceFlowView, Seq<ReplaceActionView>) {
    let done = ReplaceFlowView { stage: ReplaceStage::Done, ..f };
    match (f.stage, e) {
        (ReplaceStage::Ready, ReplaceEventView::Start { bubble_visible, session }) => if !bubble_visible {
            (done, seq![ReplaceActionView::Finish(Ok(()))])
        } else {
            match session {
                None => (
                    done,
                    seq![
                        ReplaceActionView::ShowError(no_translation_spec()),
                        ReplaceActionView::Finish(Err(no_translation_spec())),
                    ],
                ),
                Some((t, text)) => (
                    ReplaceFlowView { stage: ReplaceStage::CheckingTarget, target: t, text: text },
                    seq![ReplaceActionView::CheckTarget(t)],
                ),
            }
        },
        (ReplaceStage::CheckingTarget, ReplaceEventView::TargetChecked(alive)) => if alive {
            (
                ReplaceFlowView { stage: ReplaceStage::WritingClipboard, ..f },
                seq![ReplaceActionView::WriteClipboard(f.text)],
            )
        } else {
            (
                done,
                seq![
                    ReplaceActionView::ShowError(target_closed_spec()),
                    ReplaceActionView::Finish(Err(target_closed_spec())),
                ],
            )
        },
        (ReplaceStage::WritingClipboard, ReplaceEventView::ClipboardWritten(r)) => match r {
            Err(e) => (done, seq![ReplaceActionView::Finish(Err(e))]),
            Ok(()) => (
                ReplaceFlowView { stage: ReplaceStage::Pasting, ..f },
                seq![
                    ReplaceActionView::HideBubble,
                    ReplaceActionView::Pause(120),
                    ReplaceActionView::Paste(f.target),
                ],
            ),
        },
        (ReplaceStage::Pasting, ReplaceEventView::Pasted(r)) => match r {
            Ok(()) => (done, seq![ReplaceActionView::ClearSession, ReplaceActionView::Finish(Ok(()))]),
            Err(e) => (
                done,
                seq![ReplaceActionView::ShowError("替换失败: "@ + e), ReplaceActionView::Finish(Err(e))],
            ),
        },
        _ => (f, Seq::empty()),
    }
}

/// The views of a list of actions.
pub open spec fn replace_actions_view(v: Seq<ReplaceAction>) -> Seq<ReplaceActionView> {
    v.map_values(|a: ReplaceAction| a@)
}

fn push(actions: &mut Vec<ReplaceAction>, a: ReplaceAction)
    ensures
        replace_actions_view(final(actions)@) == replace_actions_view(old(actions)@).push(a@),
{
    let ghost v = a@;
    actions.push(a);
    assert(replace_actions_view(actions@) =~= replace_actions_view(old(actions)@).push(v));
}

impl ReplaceFlow {
    /// A write-back that has not started.
    pub fn new() -> (r: Self)
        ensures
            r@ == (ReplaceFlowView { stage: ReplaceStage::Ready, target: TargetHwnd(0), text: Seq::empty() }),
    {
        ReplaceFlow { stage: ReplaceStage::Ready, target: TargetHwnd(0), text: String::new() }
    }

    /// Reports `event`: returns what to do next, in order.
    pub fn step(&mut self, event: ReplaceEvent) -> (actions: Vec<ReplaceAction>)
        ensures
            final(self)@ == replace_step_spec(old(self)@, event@).0,
            replace_actions_view(actions@) == replace_step_spec(old(self)@, event@).1,
    {
        let mut actions: Vec<ReplaceAction> = Vec::new();
        let ghost f = self@;
        let ghost e = event@;
        assert(replace_actions_view(actions@) =~= Seq::<ReplaceActionView>::empty());
        match event {
            ReplaceEvent::Start { bubble_visible, session } => {
                if self.stage != ReplaceStage::Ready {
                    return actions;
                }
                if !bubble_visible {
                    push(&mut actions, ReplaceAction::Finish(Ok(())));
                    self.stage = ReplaceStage::Done;
                } else {
                    match session {
                        None => {
                            push(
                                &mut actions,
                                ReplaceAction::ShowError("暂无译文可替换，请先完成翻译".to_string()),
                            );
                            push(
                                &mut actions,
                                ReplaceAction::Finish(Err("暂无译文可替换，请先完成翻译".to_string())),
                            );
                            self.stage = ReplaceStage::Done;
                        },
                        Some((t, text)) => {
                            push(&mut actions, ReplaceAction::CheckTarget(t));
                            self.stage = ReplaceStage::CheckingTarget;
                            self.target = t;
                            self.text = text;
                        },
                    }
                }
            },
            ReplaceEvent::TargetChecked(alive) => {
                if self.stage != ReplaceStage::CheckingTarget {
                    return actions;
                }
                if alive {
                    push(&mut actions, ReplaceAction::WriteClipboard(self.text.clone()));
                    self.stage = ReplaceStage::WritingClipboard;
                } else {
                    push(
                        &mut actions,
                        ReplaceAction::ShowError("目标窗口已关闭，请重新选中文本后再翻译".to_string()),
                    );
                    push(
                        &mut actions,
                        ReplaceAction::Finish(Err("目标窗口已关闭，请重新选中文本后再翻译".to_string())),
                    );
                    self.stage = ReplaceStage::Done;
                }
            },
            ReplaceEvent::ClipboardWritten(r) => {
                if self.stage != ReplaceStage::WritingClipboard {
                    return actions;
                }
                match r {
                    Err(e) => {
                        push(&mut actions, ReplaceAction::Finish(Err(e)));
                        self.stage = ReplaceStage::Done;
                    },
                    Ok(()) => {
                        push(&mut actions, ReplaceAction::HideBubble);
                        push(&mut actions, ReplaceAction::Pause(120));
                        push(&mut actions, ReplaceAction::Paste(self.target));
                        self.stage = ReplaceStage::Pasting;
                    },
                }
            },
            ReplaceEvent::Pasted(r) => {
                if self.stage != ReplaceStage::Pasting {
                    return actions;
                }
                match r {
                    Ok(()) => {
                        push(&mut actions, ReplaceAction::ClearSession);
                        push(&mut actions, ReplaceAction::Finish(Ok(())));
                    },
                    Err(e) => {
                        push(&mut actions, ReplaceAction::ShowError(cat("替换失败: ", e.as_str())));
                        push(&mut actions, ReplaceAction::Finish(Err(e)));
                    },
                }
                self.stage = ReplaceStage::Done;
            },
        }
        assert(replace_actions_view(actions@) =~= replace_step_spec(f, e).1);
        actions
    }
}

/// Only the translation kept in the session is written back, and only into
/// the window it was made for.
pub proof fn writes_back_the_session(f: ReplaceFlowView, e: ReplaceEventView, k: int)
    requires
        f.stage == ReplaceStage::Ready,
        0 <= k < replace_step_spec(f, e).1.len(),
    ensures
        replace_step_spec(f, e).1[k] is CheckTarget ==> (e matches ReplaceEventView::Start { bubble_visible, session }
            && bubble_visible && session == Some(
            (replace_step_spec(f, e).1[k]->CheckTarget_0, replace_step_spec(f, e).0.text),
        )),
{
}

/// The write-back asks to clear the session only after a paste that worked.
pub proof fn clear_session_only_after_paste(f: ReplaceFlowView, e: ReplaceEventView, k: int)
    requires
        0 <= k < replace_step_spec(f, e).1.len(),
        replace_step_spec(f, e).1[k] is ClearSession,
    ensures
        f.stage == ReplaceStage::Pasting,
        e is Pasted,
        e->Pasted_0 is Ok,
{
}

} // verus!
