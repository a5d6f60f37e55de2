use paper_renamer::confirm::ensure_extension;
use paper_renamer::confirm::replay;
use paper_renamer::confirm::step;
use paper_renamer::confirm::Action;
use paper_renamer::confirm::Event;
use paper_renamer::confirm::Field;
use paper_renamer::confirm::Session;
use paper_renamer::llm::PaperMetadata as Metadata;
use paper_renamer::ui::menu;
use paper_renamer::ui::UserChoice;

fn vaswani() -> Metadata {
    Metadata {
        first_author: "Vaswani".to_string(),
        year: "2017".to_string(),
        title: "Attention Is All You Need".to_string(),
    }
}

fn text(s: &str) -> Event {
    Event::Text(s.to_string())
}

#[test]
fn propose_builds_the_name() {
    let session = Session::propose(vaswani());
    assert_eq!(
        session,
        Session::Proposed {
            metadata: vaswani(),
            filename: "vaswani-2017-attention-is-all-you-need.pdf".to_string(),
        }
    );
    assert_eq!(session.prompt(), Action::AskChoice);
    assert!(!session.is_over());
}

#[test]
fn yes_accepts_a_valid_name() {
    let (next, action) = step(Session::propose(vaswani()), &Event::Choice(UserChoice::Yes));
    assert_eq!(
        next,
        Session::Accepted { filename: "vaswani-2017-attention-is-all-you-need.pdf".to_string() }
    );
    assert_eq!(action, Action::Rename);
    assert!(next.is_over());
}

#[test]
fn no_cancels() {
    let (next, action) = step(Session::propose(vaswani()), &Event::Choice(UserChoice::No));
    assert_eq!(next, Session::Cancelled);
    assert_eq!(action, Action::Stop);
    assert!(next.is_over());
}

#[test]
fn edit_edit_accept_ends_accepted_with_the_last_name() {
    let events = vec![
        Event::Choice(UserChoice::Edit),
        text("first-try.pdf"),
        Event::Choice(UserChoice::Edit),
        text("second-try"),
        Event::Choice(UserChoice::Yes),
    ];
    let end = replay(Session::propose(vaswani()), &events);
    assert_eq!(end, Session::Accepted { filename: "second-try.pdf".to_string() });
}

#[test]
fn an_invalid_name_is_refused_and_stays_proposed() {
    let events = vec![Event::Choice(UserChoice::Edit), text("../escape.pdf")];
    let proposed = replay(Session::propose(vaswani()), &events);
    assert_eq!(
        proposed,
        Session::Proposed { metadata: vaswani(), filename: "../escape.pdf".to_string() }
    );
    let (next, action) = step(proposed.clone(), &Event::Choice(UserChoice::Yes));
    assert_eq!(next, proposed);
    assert_eq!(action, Action::ReportInvalid);
    let (next, action) = step(next, &Event::Choice(UserChoice::Edit));
    assert_eq!(action, Action::AskText(Field::Filename));
    let (next, action) = step(next, &text("safe"));
    assert_eq!(action, Action::AskChoice);
    let (next, action) = step(next, &Event::Choice(UserChoice::Yes));
    assert_eq!(next, Session::Accepted { filename: "safe.pdf".to_string() });
    assert_eq!(action, Action::Rename);
}

#[test]
fn editing_a_field_builds_the_name_anew() {
    let events = vec![Event::Choice(UserChoice::EditAuthor), text("Shazeer")];
    let after_author = replay(Session::propose(vaswani()), &events);
    let mut metadata = vaswani();
    metadata.first_author = "Shazeer".to_string();
    assert_eq!(
        after_author,
        Session::Proposed {
            metadata: metadata.clone(),
            filename: "shazeer-2017-attention-is-all-you-need.pdf".to_string(),
        }
    );
    let events = vec![
        Event::Choice(UserChoice::EditYear),
        text("2018"),
        Event::Choice(UserChoice::EditTitle),
        text("Mesh TensorFlow"),
    ];
    let after_all = replay(after_author, &events);
    metadata.year = "2018".to_string();
    metadata.title = "Mesh TensorFlow".to_string();
    assert_eq!(
        after_all,
        Session::Proposed { metadata, filename: "shazeer-2018-mesh-tensorflow.pdf".to_string() }
    );
}

#[test]
fn a_field_edit_discards_an_edited_name() {
    let events = vec![
        Event::Choice(UserChoice::Edit),
        text("mine.pdf"),
        Event::Choice(UserChoice::EditYear),
        text("2018"),
        Event::Choice(UserChoice::Yes),
    ];
    let end = replay(Session::propose(vaswani()), &events);
    assert_eq!(
        end,
        Session::Accepted { filename: "vaswani-2018-attention-is-all-you-need.pdf".to_string() }
    );
}

#[test]
fn each_edit_choice_opens_its_field() {
    let cases = [
        (UserChoice::Edit, Field::Filename),
        (UserChoice::EditAuthor, Field::Author),
        (UserChoice::EditYear, Field::Year),
        (UserChoice::EditTitle, Field::Title),
    ];
    for (choice, field) in cases {
        let (next, action) = step(Session::propose(vaswani()), &Event::Choice(choice));
        assert_eq!(
            next,
            Session::Editing {
                metadata: vaswani(),
                filename: "vaswani-2017-attention-is-all-you-need.pdf".to_string(),
                field,
            }
        );
        assert_eq!(action, Action::AskText(field));
        assert_eq!(next.prompt(), Action::AskText(field));
    }
}

#[test]
fn answers_that_do_not_fit_change_nothing() {
    let proposed = Session::propose(vaswani());
    let (next, action) = step(proposed.clone(), &text("stray"));
    assert_eq!(next, proposed);
    assert_eq!(action, Action::AskChoice);
    let (editing, _) = step(proposed, &Event::Choice(UserChoice::EditTitle));
    let (next, action) = step(editing.clone(), &Event::Choice(UserChoice::Yes));
    assert_eq!(next, editing);
    assert_eq!(action, Action::AskText(Field::Title));
}

#[test]
fn final_states_are_never_left() {
    let events = vec![
        Event::Choice(UserChoice::No),
        Event::Choice(UserChoice::Yes),
        text("late.pdf"),
        Event::Choice(UserChoice::Edit),
    ];
    assert_eq!(replay(Session::propose(vaswani()), &events), Session::Cancelled);
    let events = vec![Event::Choice(UserChoice::Yes), Event::Choice(UserChoice::No), text("x")];
    assert_eq!(
        replay(Session::propose(vaswani()), &events),
        Session::Accepted { filename: "vaswani-2017-attention-is-all-you-need.pdf".to_string() }
    );
}

#[test]
fn replay_of_no_answers_is_the_start() {
    let start = Session::propose(vaswani());
    assert_eq!(replay(start.clone(), &Vec::new()), start);
}

#[test]
fn ensure_extension_adds_only_what_is_missing() {
    assert_eq!(ensure_extension("a".to_string()), "a.pdf");
    assert_eq!(ensure_extension("a.pdf".to_string()), "a.pdf");
    assert_eq!(ensure_extension("".to_string()), ".pdf");
    assert_eq!(ensure_extension("a.PDF".to_string()), "a.PDF.pdf");
}

#[test]
fn menu_and_positions_agree() {
    let choices = menu();
    assert_eq!(
        choices,
        vec![
            UserChoice::Yes,
            UserChoice::No,
            UserChoice::Edit,
            UserChoice::EditAuthor,
            UserChoice::EditYear,
            UserChoice::EditTitle,
        ]
    );
    for (i, choice) in choices.iter().enumerate() {
        assert_eq!(UserChoice::from_index(i), Some(*choice));
        assert_eq!(choice.index(), i);
    }
    assert_eq!(UserChoice::from_index(6), None);
    assert_eq!(UserChoice::from_index(usize::MAX), None);
}

#[test]
fn menu_labels() {
    assert_eq!(UserChoice::Yes.label(), "Yes - rename the file");
    assert_eq!(UserChoice::No.label(), "No - cancel");
    assert_eq!(UserChoice::Edit.label(), "Edit filename - modify the complete filename");
    assert_eq!(UserChoice::EditAuthor.label(), "Edit author - change the author name");
    assert_eq!(UserChoice::EditYear.label(), "Edit year - change the publication year");
    assert_eq!(UserChoice::EditTitle.label(), "Edit title - change the paper title");
}

#[test]
fn filename_and_prefill_follow_the_state() {
    let proposed = Session::propose(vaswani());
    assert_eq!(proposed.filename(), "vaswani-2017-attention-is-all-you-need.pdf");
    assert_eq!(proposed.prefill(), "");
    let cases = [
        (UserChoice::Edit, "vaswani-2017-attention-is-all-you-need.pdf"),
        (UserChoice::EditAuthor, "Vaswani"),
        (UserChoice::EditYear, "2017"),
        (UserChoice::EditTitle, "Attention Is All You Need"),
    ];
    for (choice, expected) in cases {
        let (editing, _) = step(proposed.clone(), &Event::Choice(choice));
        assert_eq!(editing.prefill(), expected);
        assert_eq!(editing.filename(), "vaswani-2017-attention-is-all-you-need.pdf");
    }
    let (accepted, _) = step(proposed, &Event::Choice(UserChoice::Yes));
    assert_eq!(accepted.filename(), "vaswani-2017-attention-is-all-you-need.pdf");
    assert_eq!(accepted.prefill(), "");
    assert_eq!(Session::Cancelled.filename(), "");
    assert_eq!(Session::Cancelled.prompt(), Action::Stop);
}
