use std::collections::VecDeque;
use trust_cli::dialogs::dialog_helpers::{pick_from, require, select_from_list};
use trust_cli::dialogs::io::{DialogError, DialogErrorKind, DialogIo, RecordingDialog, ScriptedDialog};

struct StubDialogIo {
    select_result: Result<Option<usize>, DialogError>,
}

impl DialogIo for StubDialogIo {
    fn select_index(
        &mut self,
        _prompt: &str,
        _labels: &[String],
        _default: usize,
    ) -> Result<Option<usize>, DialogError> {
        std::mem::replace(&mut self.select_result, Ok(None))
    }

    fn confirm(&mut self, _prompt: &str, _default: bool) -> Result<bool, DialogError> {
        Ok(false)
    }
}

#[derive(Default)]
struct ScriptedIo {
    selections: VecDeque<Result<Option<usize>, DialogError>>,
    text_inputs: VecDeque<Result<String, DialogError>>,
}

impl DialogIo for ScriptedIo {
    fn select_index(
        &mut self,
        _prompt: &str,
        _labels: &[String],
        _default: usize,
    ) -> Result<Option<usize>, DialogError> {
        self.selections.pop_front().unwrap_or(Ok(None))
    }

    fn confirm(&mut self, _prompt: &str, _default: bool) -> Result<bool, DialogError> {
        Ok(false)
    }

    fn input_text(&mut self, _prompt: &str, _allow_empty: bool) -> Result<String, DialogError> {
        self.text_inputs
            .pop_front()
            .unwrap_or_else(|| Ok(String::new()))
    }
}

#[test]
fn stub_dialog_io_confirm_default_is_false() {
    let mut io = StubDialogIo {
        select_result: Ok(None),
    };

    assert!(!DialogIo::confirm(&mut io, "continue?", true).expect("confirm should return"));
}

#[test]
fn scripted_io_confirm_default_is_false() {
    let mut io = ScriptedIo::default();

    assert!(!io
        .confirm("continue?", true)
        .expect("confirm should return"));
}

#[test]
fn scripted_io_input_text_defaults_to_empty_string() {
    let mut io = ScriptedIo::default();

    assert_eq!(
        io.input_text("Symbol:", false)
            .expect("default text input should return"),
        ""
    );
}

#[test]
fn dialog_io_input_text_default_returns_unsupported() {
    let mut io = StubDialogIo {
        select_result: Ok(None),
    };
    let error = io
        .input_text("Prompt", true)
        .expect_err("default input_text should be unsupported");
    assert_eq!(error.kind, DialogErrorKind::Unsupported);
    assert!(error.to_text().contains("not implemented"));
}

fn label(s: &&str) -> String {
    s.to_string()
}

#[test]
fn select_from_list_returns_selected_item() {
    let mut io = ScriptedIo::default();
    io.selections.push_back(Ok(Some(1)));
    let items = ["one", "two", "three"];

    let selected = select_from_list(&mut RecordingDialog::new(io), "Pick", &items, label, "empty", "cancel")
        .expect("selection should succeed");

    assert_eq!(selected, "two");
}

#[test]
fn select_from_list_errors_when_empty() {
    let mut io = ScriptedIo::default();
    let items: [&str; 0] = [];
    let error = select_from_list(&mut RecordingDialog::new(io), "Pick", &items, label, "empty list", "cancel")
        .expect_err("empty");
    assert_eq!(error.kind, DialogErrorKind::NotFound);
    assert_eq!(error.message, "empty list");
}

#[test]
fn select_from_list_errors_on_cancel() {
    let mut io = ScriptedIo::default();
    io.selections.push_back(Ok(None));
    let items = ["one", "two"];

    let error = select_from_list(&mut RecordingDialog::new(io), "Pick", &items, label, "empty", "cancelled")
        .expect_err("cancel should error");
    assert_eq!(error.kind, DialogErrorKind::InvalidInput);
}

#[test]
fn select_from_list_errors_on_io_failure() {
    let mut io = ScriptedIo::default();
    io.selections
        .push_back(Err(DialogError::other("terminal unavailable")));
    let items = ["one", "two"];

    let error = select_from_list(&mut RecordingDialog::new(io), "Pick", &items, label, "empty", "cancelled")
        .expect_err("io failure should error");
    assert_eq!(error.kind, DialogErrorKind::InvalidInput);
}

#[test]
fn select_from_list_rejects_out_of_range_index() {
    let mut io = ScriptedIo::default();
    io.selections.push_back(Ok(Some(5)));
    let items = ["one", "two"];
    let error = select_from_list(&mut RecordingDialog::new(io), "Pick", &items, label, "empty", "cancelled")
        .expect_err("index out of range should error");
    assert_eq!(error.kind, DialogErrorKind::InvalidInput);
    assert_eq!(error.message, "cancelled");
}

#[test]
fn require_passes_values_and_reports_missing_ones() {
    assert_eq!(require(Some(3), DialogErrorKind::NotFound, "missing").expect("value"), 3);
    let error = require::<u8>(None, DialogErrorKind::NotFound, "missing").expect_err("none");
    assert_eq!(error.kind, DialogErrorKind::NotFound);
    assert_eq!(error.message, "missing");
}

#[test]
fn scripted_dialoguer_backend_returns_scripted_values() {
    let mut io = ScriptedDialog::new();
    io.push_select(Ok(Some(1)));
    io.push_confirm(Ok(true));
    io.push_input(Ok("typed".to_string()));
    let labels = vec!["a".to_string(), "b".to_string()];

    assert_eq!(
        io.select_index("pick", &labels, 0)
            .expect("select should use scripted response"),
        Some(1)
    );
    assert!(io
        .confirm("confirm", false)
        .expect("confirm should use scripted response"));
    assert_eq!(
        io.input_text("prompt", true)
            .expect("input should use scripted response"),
        "typed"
    );
}

#[test]
fn scripted_dialoguer_backend_errors_without_scripted_values() {
    let mut io = ScriptedDialog::new();
    io.push_select(Ok(Some(0)));
    io.reset();

    let select_error = io
        .select_index("pick", &[], 0)
        .expect_err("missing selection should error");
    assert!(select_error
        .to_text()
        .contains("no scripted selection response"));

    let confirm_error = io
        .confirm("confirm", false)
        .expect_err("missing confirm should error");
    assert!(confirm_error
        .to_text()
        .contains("no scripted confirm response"));

    let input_error = io
        .input_text("prompt", false)
        .expect_err("missing input should error");
    assert!(input_error
        .to_text()
        .contains("no scripted input response"));
}

#[test]
fn scripted_answers_come_out_in_order() {
    let mut io = ScriptedDialog::new();
    io.push_input(Ok("first".to_string()));
    io.push_input(Ok("second".to_string()));
    assert_eq!(io.next_input().expect("first"), "first");
    assert_eq!(io.next_input().expect("second"), "second");
    assert!(io.next_input().is_err());
}

#[derive(Default)]
struct RecordingIo {
    asked: Vec<(String, Vec<String>, usize)>,
    answer: Option<usize>,
}

impl DialogIo for RecordingIo {
    fn select_index(
        &mut self,
        prompt: &str,
        labels: &[String],
        default: usize,
    ) -> Result<Option<usize>, DialogError> {
        self.asked.push((prompt.to_string(), labels.to_vec(), default));
        Ok(self.answer)
    }

    fn confirm(&mut self, _prompt: &str, _default: bool) -> Result<bool, DialogError> {
        Ok(false)
    }
}

#[test]
fn select_from_list_asks_once_with_the_labels_in_order() {
    let mut io = RecordingDialog::new(RecordingIo { asked: Vec::new(), answer: Some(2) });
    let items = ["one", "two", "three"];
    let picked = select_from_list(&mut io, "Pick", &items, label, "empty", "cancel").expect("pick");
    assert_eq!(picked, "three");
    assert_eq!(
        io.inner.asked,
        vec![(
            "Pick".to_string(),
            vec!["one".to_string(), "two".to_string(), "three".to_string()],
            0
        )]
    );
}

#[test]
fn select_from_list_does_not_ask_for_an_empty_list() {
    let mut io = RecordingDialog::new(RecordingIo::default());
    let items: [&str; 0] = [];
    assert!(select_from_list(&mut io, "Pick", &items, label, "empty", "cancel").is_err());
    assert!(io.inner.asked.is_empty());
}

#[test]
fn picks_map_to_items_or_the_cancel_error() {
    let items = [10u8, 20];
    assert_eq!(pick_from(&items, Ok(Some(1)), "cancel").expect("pick"), 20);
    let error = pick_from(&items, Ok(Some(2)), "cancel").expect_err("past the end");
    assert_eq!(error.kind, DialogErrorKind::InvalidInput);
    assert_eq!(error.message, "cancel");
    assert!(pick_from(&items, Ok(None), "cancel").is_err());
    assert!(pick_from(&items, Err(DialogError::other("x")), "cancel").is_err());
}
