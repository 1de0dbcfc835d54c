use sunsama_shell::window::{
    Reply, WindowOperation, WindowRequest, WindowStateTracker, WindowVisibilityState,
};

/// A window that does what it is asked, unless it is told to fail.
struct FakeWindow {
    visible: bool,
    focused: bool,
    query_works: bool,
    show_works: bool,
    focus_works: bool,
    hide_works: bool,
    requests: Vec<WindowRequest>,
}

impl FakeWindow {
    fn new(visible: bool) -> FakeWindow {
        FakeWindow {
            visible,
            focused: false,
            query_works: true,
            show_works: true,
            focus_works: true,
            hide_works: true,
            requests: Vec::new(),
        }
    }

    fn perform(&mut self, request: WindowRequest) -> Reply {
        self.requests.push(request);
        match request {
            WindowRequest::QueryVisibility if self.query_works => {
                Reply::Visibility { visible: self.visible }
            }
            WindowRequest::Show if self.show_works => {
                self.visible = true;
                Reply::Done
            }
            WindowRequest::Focus if self.focus_works => {
                self.focused = self.visible;
                Reply::Done
            }
            WindowRequest::Hide if self.hide_works => {
                self.visible = false;
                self.focused = false;
                Reply::Done
            }
            _ => Reply::Failed,
        }
    }

    /// Runs an operation to its end and returns the requests it made.
    fn run(
        &mut self,
        tracker: &mut WindowStateTracker,
        first: Option<WindowRequest>,
    ) -> Vec<WindowRequest> {
        self.requests.clear();
        let mut next = first;
        while let Some(request) = next {
            let reply = self.perform(request);
            next = tracker.resume(reply);
        }
        self.requests.clone()
    }
}

#[test]
fn tracker_starts_unknown_and_idle() {
    let tracker = WindowStateTracker::new();
    assert_eq!(tracker.state(), WindowVisibilityState::Unknown);
    assert!(tracker.is_idle());
}

#[test]
fn every_operation_begins_with_a_query() {
    for operation in [
        WindowOperation::Query,
        WindowOperation::ShowAndFocus,
        WindowOperation::Hide,
        WindowOperation::Toggle,
    ] {
        let mut tracker = WindowStateTracker::new();
        assert_eq!(tracker.begin(operation), Some(WindowRequest::QueryVisibility));
        assert!(!tracker.is_idle());
    }
    assert_eq!(WindowStateTracker::new().query(), Some(WindowRequest::QueryVisibility));
    assert_eq!(WindowStateTracker::new().show_and_focus(), Some(WindowRequest::QueryVisibility));
    assert_eq!(WindowStateTracker::new().hide_window(), Some(WindowRequest::QueryVisibility));
    assert_eq!(WindowStateTracker::new().toggle(), Some(WindowRequest::QueryVisibility));
}

#[test]
fn query_reads_the_window() {
    let mut tracker = WindowStateTracker::new();
    let mut window = FakeWindow::new(true);
    let first = tracker.query();
    assert_eq!(window.run(&mut tracker, first), vec![WindowRequest::QueryVisibility]);
    assert_eq!(tracker.state(), WindowVisibilityState::Visible);
    assert!(tracker.is_idle());

    window.visible = false;
    let first = tracker.query();
    assert_eq!(window.run(&mut tracker, first), vec![WindowRequest::QueryVisibility]);
    assert_eq!(tracker.state(), WindowVisibilityState::Hidden);
}

#[test]
fn failed_query_gives_unknown() {
    let mut tracker = WindowStateTracker::new();
    let mut window = FakeWindow::new(true);
    let first = tracker.query();
    window.run(&mut tracker, first);
    assert_eq!(tracker.state(), WindowVisibilityState::Visible);

    window.query_works = false;
    let first = tracker.query();
    assert_eq!(window.run(&mut tracker, first), vec![WindowRequest::QueryVisibility]);
    assert_eq!(tracker.state(), WindowVisibilityState::Unknown);
    assert!(window.visible);
}

#[test]
fn reply_that_is_no_reading_gives_unknown() {
    let mut tracker = WindowStateTracker::new();
    assert_eq!(tracker.query(), Some(WindowRequest::QueryVisibility));
    assert_eq!(tracker.resume(Reply::Done), None);
    assert_eq!(tracker.state(), WindowVisibilityState::Unknown);
    assert!(tracker.is_idle());
}

#[test]
fn show_and_focus_shows_a_hidden_window() {
    let mut tracker = WindowStateTracker::new();
    let mut window = FakeWindow::new(false);
    let first = tracker.show_and_focus();
    assert_eq!(
        window.run(&mut tracker, first),
        vec![WindowRequest::QueryVisibility, WindowRequest::Show, WindowRequest::Focus]
    );
    assert!(window.visible);
    assert!(window.focused);
    assert_eq!(tracker.state(), WindowVisibilityState::Visible);
    assert!(tracker.is_idle());
}

#[test]
fn show_and_focus_twice_only_asserts_focus_the_second_time() {
    for initially_visible in [false, true] {
        let mut tracker = WindowStateTracker::new();
        let mut window = FakeWindow::new(initially_visible);
        let first = tracker.show_and_focus();
        window.run(&mut tracker, first);
        assert_eq!(tracker.state(), WindowVisibilityState::Visible);
        assert!(window.visible);

        let first = tracker.show_and_focus();
        assert_eq!(
            window.run(&mut tracker, first),
            vec![WindowRequest::QueryVisibility, WindowRequest::Focus]
        );
        assert_eq!(tracker.state(), WindowVisibilityState::Visible);
        assert!(window.visible);
        assert!(window.focused);
    }
}

#[test]
fn show_and_focus_raises_a_visible_window() {
    let mut tracker = WindowStateTracker::new();
    let mut window = FakeWindow::new(true);
    assert!(!window.focused);
    let first = tracker.show_and_focus();
    assert_eq!(
        window.run(&mut tracker, first),
        vec![WindowRequest::QueryVisibility, WindowRequest::Focus]
    );
    assert!(window.focused);
}

#[test]
fn show_and_focus_shows_when_the_query_fails() {
    let mut tracker = WindowStateTracker::new();
    let mut window = FakeWindow::new(true);
    window.query_works = false;
    let first = tracker.show_and_focus();
    assert_eq!(
        window.run(&mut tracker, first),
        vec![WindowRequest::QueryVisibility, WindowRequest::Show, WindowRequest::Focus]
    );
    assert_eq!(tracker.state(), WindowVisibilityState::Visible);
}

#[test]
fn failed_show_leaves_the_state_and_still_focuses() {
    let mut tracker = WindowStateTracker::new();
    let mut window = FakeWindow::new(false);
    window.show_works = false;
    let first = tracker.show_and_focus();
    assert_eq!(
        window.run(&mut tracker, first),
        vec![WindowRequest::QueryVisibility, WindowRequest::Show, WindowRequest::Focus]
    );
    assert!(!window.visible);
    assert_eq!(tracker.state(), WindowVisibilityState::Hidden);
    assert!(tracker.is_idle());
}

#[test]
fn failed_show_after_failed_query_leaves_unknown() {
    let mut tracker = WindowStateTracker::new();
    let mut window = FakeWindow::new(false);
    window.query_works = false;
    window.show_works = false;
    let first = tracker.toggle();
    window.run(&mut tracker, first);
    assert_eq!(tracker.state(), WindowVisibilityState::Unknown);
    assert!(!window.visible);
}

#[test]
fn failed_focus_does_not_change_the_state() {
    let mut tracker = WindowStateTracker::new();
    let mut window = FakeWindow::new(false);
    window.focus_works = false;
    let first = tracker.show_and_focus();
    window.run(&mut tracker, first);
    assert!(window.visible);
    assert!(!window.focused);
    assert_eq!(tracker.state(), WindowVisibilityState::Visible);
}

#[test]
fn hide_hides_a_visible_window() {
    let mut tracker = WindowStateTracker::new();
    let mut window = FakeWindow::new(true);
    let first = tracker.hide_window();
    assert_eq!(
        window.run(&mut tracker, first),
        vec![WindowRequest::QueryVisibility, WindowRequest::Hide]
    );
    assert!(!window.visible);
    assert_eq!(tracker.state(), WindowVisibilityState::Hidden);
}

#[test]
fn hide_is_a_no_op_on_a_hidden_window() {
    let mut tracker = WindowStateTracker::new();
    let mut window = FakeWindow::new(false);
    let first = tracker.hide_window();
    assert_eq!(window.run(&mut tracker, first), vec![WindowRequest::QueryVisibility]);
    assert_eq!(tracker.state(), WindowVisibilityState::Hidden);

    let first = tracker.hide_window();
    assert_eq!(window.run(&mut tracker, first), vec![WindowRequest::QueryVisibility]);
    assert_eq!(tracker.state(), WindowVisibilityState::Hidden);
    assert!(!window.visible);
}

#[test]
fn hide_hides_when_the_query_fails() {
    let mut tracker = WindowStateTracker::new();
    let mut window = FakeWindow::new(true);
    window.query_works = false;
    let first = tracker.hide_window();
    assert_eq!(
        window.run(&mut tracker, first),
        vec![WindowRequest::QueryVisibility, WindowRequest::Hide]
    );
    assert!(!window.visible);
    assert_eq!(tracker.state(), WindowVisibilityState::Hidden);
}

#[test]
fn failed_hide_leaves_the_state() {
    let mut tracker = WindowStateTracker::new();
    let mut window = FakeWindow::new(true);
    window.hide_works = false;
    let first = tracker.hide_window();
    window.run(&mut tracker, first);
    assert!(window.visible);
    assert_eq!(tracker.state(), WindowVisibilityState::Visible);
    assert!(tracker.is_idle());
}

#[test]
fn toggle_inverts_the_window() {
    let mut tracker = WindowStateTracker::new();
    let mut window = FakeWindow::new(false);
    let first = tracker.toggle();
    assert_eq!(
        window.run(&mut tracker, first),
        vec![WindowRequest::QueryVisibility, WindowRequest::Show, WindowRequest::Focus]
    );
    assert!(window.visible && window.focused);
    assert_eq!(tracker.state(), WindowVisibilityState::Visible);

    let first = tracker.toggle();
    assert_eq!(
        window.run(&mut tracker, first),
        vec![WindowRequest::QueryVisibility, WindowRequest::Hide]
    );
    assert!(!window.visible);
    assert_eq!(tracker.state(), WindowVisibilityState::Hidden);
}

#[test]
fn toggle_after_an_external_hide_shows() {
    let mut tracker = WindowStateTracker::new();
    let mut window = FakeWindow::new(false);
    let first = tracker.toggle();
    window.run(&mut tracker, first);
    assert_eq!(tracker.state(), WindowVisibilityState::Visible);

    // The user closes the window; the tracker is not told.
    window.visible = false;
    window.focused = false;
    assert_eq!(tracker.state(), WindowVisibilityState::Visible);

    let first = tracker.toggle();
    assert_eq!(
        window.run(&mut tracker, first),
        vec![WindowRequest::QueryVisibility, WindowRequest::Show, WindowRequest::Focus]
    );
    assert!(window.visible);
    assert_eq!(tracker.state(), WindowVisibilityState::Visible);
}

#[test]
fn toggle_after_an_external_show_hides() {
    let mut tracker = WindowStateTracker::new();
    let mut window = FakeWindow::new(true);
    let first = tracker.toggle();
    window.run(&mut tracker, first);
    assert_eq!(tracker.state(), WindowVisibilityState::Hidden);

    window.visible = true;
    let first = tracker.toggle();
    assert_eq!(
        window.run(&mut tracker, first),
        vec![WindowRequest::QueryVisibility, WindowRequest::Hide]
    );
    assert!(!window.visible);
}

#[test]
fn toggles_interleaved_with_external_changes_follow_the_window() {
    let mut tracker = WindowStateTracker::new();
    let mut window = FakeWindow::new(false);
    let externals = [None, Some(false), Some(true), None, Some(true), Some(false), None, None];
    for external in externals {
        if let Some(visible) = external {
            window.visible = visible;
        }
        let before = window.visible;
        let first = tracker.toggle();
        let requests = window.run(&mut tracker, first);
        assert_eq!(requests[0], WindowRequest::QueryVisibility);
        assert_eq!(window.visible, !before);
        let expected = if window.visible {
            WindowVisibilityState::Visible
        } else {
            WindowVisibilityState::Hidden
        };
        assert_eq!(tracker.state(), expected);
    }
}

#[test]
fn toggle_shows_when_the_query_fails() {
    let mut tracker = WindowStateTracker::new();
    let mut window = FakeWindow::new(false);
    window.query_works = false;
    let first = tracker.toggle();
    assert_eq!(
        window.run(&mut tracker, first),
        vec![WindowRequest::QueryVisibility, WindowRequest::Show, WindowRequest::Focus]
    );
    assert!(window.visible);
    assert_eq!(tracker.state(), WindowVisibilityState::Visible);
}

#[test]
fn busy_tracker_refuses_another_operation() {
    let mut tracker = WindowStateTracker::new();
    assert_eq!(tracker.toggle(), Some(WindowRequest::QueryVisibility));
    assert_eq!(tracker.toggle(), None);
    assert_eq!(tracker.show_and_focus(), None);
    assert_eq!(tracker.hide_window(), None);
    assert_eq!(tracker.query(), None);
    // The operation in progress goes on as if nothing had been asked.
    assert_eq!(tracker.resume(Reply::Visibility { visible: true }), Some(WindowRequest::Hide));
    assert_eq!(tracker.toggle(), None);
    assert_eq!(tracker.resume(Reply::Done), None);
    assert_eq!(tracker.state(), WindowVisibilityState::Hidden);
    assert_eq!(tracker.toggle(), Some(WindowRequest::QueryVisibility));
}

#[test]
fn idle_tracker_ignores_replies() {
    let mut tracker = WindowStateTracker::new();
    assert_eq!(tracker.resume(Reply::Visibility { visible: true }), None);
    assert_eq!(tracker.resume(Reply::Done), None);
    assert_eq!(tracker.resume(Reply::Failed), None);
    assert_eq!(tracker.state(), WindowVisibilityState::Unknown);
    assert!(tracker.is_idle());
}

#[test]
fn unexpected_reading_does_not_confirm_a_change() {
    let mut tracker = WindowStateTracker::new();
    assert_eq!(tracker.show_and_focus(), Some(WindowRequest::QueryVisibility));
    assert_eq!(tracker.resume(Reply::Visibility { visible: false }), Some(WindowRequest::Show));
    // Only `Done` confirms that the window was shown.
    assert_eq!(tracker.resume(Reply::Visibility { visible: true }), Some(WindowRequest::Focus));
    assert_eq!(tracker.resume(Reply::Done), None);
    assert_eq!(tracker.state(), WindowVisibilityState::Hidden);
}
