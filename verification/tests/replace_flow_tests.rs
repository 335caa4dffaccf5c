use quick_translate::replace_flow::{ReplaceAction, ReplaceEvent, ReplaceFlow, ReplaceStage};
use quick_translate::selection::TargetHwnd;

fn start(flow: &mut ReplaceFlow, visible: bool, session: Option<(isize, &str)>) -> Vec<ReplaceAction> {
    flow.step(ReplaceEvent::Start {
        bubble_visible: visible,
        session: session.map(|(h, t)| (TargetHwnd(h), t.to_string())),
    })
}

#[test]
fn hidden_bubble_does_nothing() {
    let mut f = ReplaceFlow::new();
    let a = start(&mut f, false, Some((5, "译文")));
    assert_eq!(a.len(), 1);
    assert!(matches!(a[0], ReplaceAction::Finish(Ok(()))));
    assert_eq!(f.stage, ReplaceStage::Done);
}

#[test]
fn missing_session_is_reported() {
    let mut f = ReplaceFlow::new();
    let a = start(&mut f, true, None);
    assert_eq!(a.len(), 2);
    match &a[0] {
        ReplaceAction::ShowError(m) => assert_eq!(m, "暂无译文可替换，请先完成翻译"),
        other => panic!("unexpected {:?}", other),
    }
    match &a[1] {
        ReplaceAction::Finish(Err(m)) => assert_eq!(m, "暂无译文可替换，请先完成翻译"),
        other => panic!("unexpected {:?}", other),
    }
}

#[test]
fn write_back_runs_to_the_paste() {
    let mut f = ReplaceFlow::new();
    let a = start(&mut f, true, Some((5, "译文")));
    assert_eq!(a.len(), 1);
    assert!(matches!(a[0], ReplaceAction::CheckTarget(TargetHwnd(5))));
    let a = f.step(ReplaceEvent::TargetChecked(true));
    match &a[0] {
        ReplaceAction::WriteClipboard(t) => assert_eq!(t, "译文"),
        other => panic!("unexpected {:?}", other),
    }
    let a = f.step(ReplaceEvent::ClipboardWritten(Ok(())));
    assert_eq!(a.len(), 3);
    assert!(matches!(a[0], ReplaceAction::HideBubble));
    assert!(matches!(a[1], ReplaceAction::Pause(120)));
    assert!(matches!(a[2], ReplaceAction::Paste(TargetHwnd(5))));
    let a = f.step(ReplaceEvent::Pasted(Ok(())));
    assert_eq!(a.len(), 2);
    assert!(matches!(a[0], ReplaceAction::ClearSession));
    assert!(matches!(a[1], ReplaceAction::Finish(Ok(()))));
    assert_eq!(f.stage, ReplaceStage::Done);
    assert!(f.step(ReplaceEvent::Pasted(Ok(()))).is_empty());
}

#[test]
fn closed_target_is_reported() {
    let mut f = ReplaceFlow::new();
    start(&mut f, true, Some((5, "译文")));
    let a = f.step(ReplaceEvent::TargetChecked(false));
    match &a[0] {
        ReplaceAction::ShowError(m) => assert_eq!(m, "目标窗口已关闭，请重新选中文本后再翻译"),
        other => panic!("unexpected {:?}", other),
    }
    assert!(matches!(a[1], ReplaceAction::Finish(Err(_))));
}

#[test]
fn clipboard_error_ends_silently() {
    let mut f = ReplaceFlow::new();
    start(&mut f, true, Some((5, "译文")));
    f.step(ReplaceEvent::TargetChecked(true));
    let a = f.step(ReplaceEvent::ClipboardWritten(Err("剪贴板不可用: x".to_string())));
    assert_eq!(a.len(), 1);
    match &a[0] {
        ReplaceAction::Finish(Err(m)) => assert_eq!(m, "剪贴板不可用: x"),
        other => panic!("unexpected {:?}", other),
    }
}

#[test]
fn failed_paste_is_reported_with_its_error() {
    let mut f = ReplaceFlow::new();
    start(&mut f, true, Some((5, "译文")));
    f.step(ReplaceEvent::TargetChecked(true));
    f.step(ReplaceEvent::ClipboardWritten(Ok(())));
    let a = f.step(ReplaceEvent::Pasted(Err("当前平台不支持模拟粘贴".to_string())));
    assert_eq!(a.len(), 2);
    match &a[0] {
        ReplaceAction::ShowError(m) => assert_eq!(m, "替换失败: 当前平台不支持模拟粘贴"),
        other => panic!("unexpected {:?}", other),
    }
    match &a[1] {
        ReplaceAction::Finish(Err(m)) => assert_eq!(m, "当前平台不支持模拟粘贴"),
        other => panic!("unexpected {:?}", other),
    }
    assert!(!a.iter().any(|x| matches!(x, ReplaceAction::ClearSession)));
}
