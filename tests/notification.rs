use toast_notify::document::{build_document, NotificationDocument};
use toast_notify::error::NotificationError;
use toast_notify::session::{Action, Stage, ToastRun};
use toast_notify::template::{select_template, Template};

fn fields(texts: &[&str]) -> Vec<String> {
    texts.iter().map(|s| s.to_string()).collect()
}

/// Drives an attempt against a simulated host that answers each step with
/// the next outcome (success once the list runs out); returns every action
/// asked for, the final one included.
fn drive(run: &mut ToastRun, outcomes: &[bool]) -> Vec<Action> {
    let mut asked = Vec::new();
    let mut i = 0;
    loop {
        let action = run.next_action();
        let done = matches!(action, Action::Finished(_));
        asked.push(action);
        if done || asked.len() > 20 {
            return asked;
        }
        let ok = if i < outcomes.len() { outcomes[i] } else { true };
        i += 1;
        run.record(ok);
    }
}

fn submissions(actions: &[Action]) -> usize {
    actions.iter().filter(|a| matches!(a, Action::Submit)).count()
}

#[test]
fn one_field_selects_single_line_layout() {
    assert_eq!(select_template(1), Some(Template::SingleLine));
    assert_eq!(Template::SingleLine.slot_count(), 1);
}

#[test]
fn two_fields_select_title_body_layout() {
    assert_eq!(select_template(2), Some(Template::TitleBody));
    assert_eq!(Template::TitleBody.slot_count(), 2);
}

#[test]
fn other_field_counts_have_no_layout() {
    assert_eq!(select_template(0), None);
    assert_eq!(select_template(3), None);
    assert_eq!(select_template(usize::MAX), None);
}

#[test]
fn other_field_counts_are_refused_before_any_host_step() {
    assert_eq!(ToastRun::new(Vec::new()).err(), Some(NotificationError::InvalidFieldCount));
    assert_eq!(ToastRun::new(fields(&["a", "b", "c"])).err(), Some(NotificationError::InvalidFieldCount));
    assert_eq!(build_document(&fields(&[])).err(), Some(NotificationError::InvalidFieldCount));
}

#[test]
fn hello_from_rust_is_shown_on_single_line_layout() {
    let mut run = ToastRun::new(fields(&["hello from rust"])).unwrap();
    assert_eq!(run.stage(), Stage::Unbuilt);
    let actions = drive(&mut run, &[]);
    assert_eq!(actions.len(), 5);
    assert!(matches!(actions[0], Action::LoadTemplate(Template::SingleLine)));
    assert!(matches!(&actions[1], Action::BindSlot(0, s) if s == "hello from rust"));
    assert!(matches!(actions[2], Action::Construct));
    assert!(matches!(actions[3], Action::Submit));
    assert!(matches!(actions[4], Action::Finished(Ok(()))));
    assert_eq!(run.stage(), Stage::Submitted);
    assert_eq!(run.document().template(), Template::SingleLine);
    assert_eq!(run.document().text(0), "hello from rust");
}

#[test]
fn title_and_body_go_to_slots_zero_and_one() {
    let mut run = ToastRun::new(fields(&["Title", "Body"])).unwrap();
    let actions = drive(&mut run, &[]);
    assert_eq!(actions.len(), 6);
    assert!(matches!(actions[0], Action::LoadTemplate(Template::TitleBody)));
    assert!(matches!(&actions[1], Action::BindSlot(0, s) if s == "Title"));
    assert!(matches!(&actions[2], Action::BindSlot(1, s) if s == "Body"));
    assert!(matches!(actions[3], Action::Construct));
    assert!(matches!(actions[4], Action::Submit));
    assert!(matches!(actions[5], Action::Finished(Ok(()))));
    assert_eq!(run.document().slot_count(), 2);
    assert_eq!(run.document().text(0), "Title");
    assert_eq!(run.document().text(1), "Body");
}

#[test]
fn slots_fill_one_step_at_a_time() {
    let mut run = ToastRun::new(fields(&["Title", "Body"])).unwrap();
    run.record(true);
    assert_eq!(run.stage(), Stage::TemplateLoaded);
    assert_eq!(run.document().text(0), "");
    run.record(true);
    assert_eq!(run.stage(), Stage::TemplateLoaded);
    assert_eq!(run.document().text(0), "Title");
    assert_eq!(run.document().text(1), "");
    run.record(true);
    assert_eq!(run.stage(), Stage::SlotsBound);
    assert_eq!(run.document().text(1), "Body");
}

#[test]
fn template_unavailable_ends_without_submission() {
    let mut run = ToastRun::new(fields(&["Title", "Body"])).unwrap();
    let actions = drive(&mut run, &[false]);
    assert_eq!(actions.len(), 2);
    assert!(matches!(actions[1], Action::Finished(Err(NotificationError::TemplateUnavailable))));
    assert_eq!(submissions(&actions), 0);
    run.record(true);
    assert_eq!(run.stage(), Stage::Failed(NotificationError::TemplateUnavailable));
    assert!(matches!(run.next_action(), Action::Finished(Err(NotificationError::TemplateUnavailable))));
}

#[test]
fn missing_slot_fails_with_slot_index_out_of_range() {
    let mut run = ToastRun::new(fields(&["Title", "Body"])).unwrap();
    let actions = drive(&mut run, &[true, true, false]);
    assert!(matches!(actions.last(), Some(Action::Finished(Err(NotificationError::SlotIndexOutOfRange)))));
    assert_eq!(submissions(&actions), 0);
    assert_eq!(run.document().text(0), "Title");
    assert_eq!(run.document().text(1), "");
}

#[test]
fn refused_construction_fails_with_construction_error() {
    let mut run = ToastRun::new(fields(&["x"])).unwrap();
    let actions = drive(&mut run, &[true, true, false]);
    assert!(matches!(
        actions.last(),
        Some(Action::Finished(Err(NotificationError::NotificationConstructionFailed)))
    ));
    assert_eq!(submissions(&actions), 0);
}

#[test]
fn refused_submission_fails_with_submission_error() {
    let mut run = ToastRun::new(fields(&["x"])).unwrap();
    let actions = drive(&mut run, &[true, true, true, false]);
    assert_eq!(submissions(&actions), 1);
    assert!(matches!(actions.last(), Some(Action::Finished(Err(NotificationError::SubmissionFailed)))));
}

#[test]
fn repeated_attempts_submit_each_time() {
    let mut first = ToastRun::new(fields(&["Title", "Body"])).unwrap();
    let mut second = ToastRun::new(fields(&["Title", "Body"])).unwrap();
    let a = drive(&mut first, &[]);
    assert_eq!(second.stage(), Stage::Unbuilt);
    let b = drive(&mut second, &[]);
    assert_eq!(submissions(&a) + submissions(&b), 2);
    assert_eq!(first.stage(), Stage::Submitted);
    assert_eq!(second.stage(), Stage::Submitted);
}

#[test]
fn fresh_document_has_empty_slots() {
    let doc = NotificationDocument::from_template(Template::TitleBody);
    assert_eq!(doc.template(), Template::TitleBody);
    assert_eq!(doc.slot_count(), 2);
    assert_eq!(doc.text(0), "");
    assert_eq!(doc.text(1), "");
}

#[test]
fn bind_past_the_last_slot_is_refused() {
    let mut doc = NotificationDocument::from_template(Template::SingleLine);
    assert_eq!(doc.bind(1, "late".to_string()), Err(NotificationError::SlotIndexOutOfRange));
    assert_eq!(doc.text(0), "");
    assert_eq!(doc.bind(0, "on time".to_string()), Ok(()));
    assert_eq!(doc.text(0), "on time");
}

#[test]
fn build_document_binds_fields_by_position() {
    let doc = build_document(&fields(&["Title", "Body"])).unwrap();
    assert_eq!(doc.template(), Template::TitleBody);
    assert_eq!(doc.text(0), "Title");
    assert_eq!(doc.text(1), "Body");
    let one = build_document(&fields(&["hello from rust"])).unwrap();
    assert_eq!(one.template(), Template::SingleLine);
    assert_eq!(one.text(0), "hello from rust");
}
