use cxx_qt_build::application::{EventLoopEvent, QGuiApplication};

#[test]
fn exec_returns_exit_code() {
    let app = QGuiApplication::new(vec!["demo".to_string()]);
    let events = vec![EventLoopEvent::Other, EventLoopEvent::Exit(3), EventLoopEvent::Exit(4)];
    assert_eq!(app.exec(&events), 3);
}

#[test]
fn exec_returns_zero_after_quit() {
    let app = QGuiApplication::new(vec![]);
    let events = vec![EventLoopEvent::Other, EventLoopEvent::Other, EventLoopEvent::Quit, EventLoopEvent::Exit(9)];
    assert_eq!(app.exec(&events), 0);
}
