//! The dialogue in which a proposed name is accepted, edited or rejected.
//!
//! The dialogue is a state machine. It starts with a proposed name, goes
//! through any number of edits, and ends when the user accepts a valid name or
//! cancels. The caller shows what each [`Action`] asks for and hands the
//! user's answer back as an [`Event`].

use vstd::prelude::*;
use vstd::string::StringExecFns;
use crate::filename::filename_of;
use crate::filename::generate_filename;
use crate::filename::has_extension;
use crate::filename::has_pdf_extension;
use crate::filename::pdf_extension;
use crate::filename::valid_filename;
use crate::filename::validate_filename;
use crate::llm::PaperMetadata;
use crate::llm::PaperMetadataView;
use crate::ui::UserChoice;

verus! {

/// What an edit changes: the name as a whole, or one field of the metadata.
#[derive(Debug, Clone, Copy, PartialEq, Eq, Structural)]
pub enum Field {
    Filename,
    Author,
    Year,
    Title,
}

/// What the caller is to do after a step of the dialogue.
#[derive(Debug, Clone, Copy, PartialEq, Eq, Structural)]
pub enum Action {
    /// Show the proposed name and ask for a choice.
    AskChoice,
    /// Tell the user that the name is not valid, then ask for a choice again.
    ReportInvalid,
    /// Ask for the new text of what is being edited.
    AskText(Field),
    /// Rename the file to the accepted name.
    Rename,
    /// Nothing is left to do: the user cancelled.
    Stop,
}

/// The state of the dialogue.
#[derive(Debug, Clone, PartialEq, Eq)]
pub enum Session {
    /// A name is proposed and the user is asked to choose.
    Proposed { metadata: PaperMetadata, filename: String },
    /// The user is editing the name or a field.
    Editing { metadata: PaperMetadata, filename: String, field: Field },
    /// The user accepted the name, and the name is valid.
    Accepted { filename: String },
    /// The user cancelled.
    Cancelled,
}

/// What the user answered.
#[derive(Debug, Clone, PartialEq, Eq)]
pub enum Event {
    /// A choice from the menu.
    Choice(UserChoice),
    /// The text that the user entered for what is being edited.
    Text(String),
}

/// The state of the dialogue over sequences of characters.
pub enum SessionView {
    Proposed { metadata: PaperMetadataView, filename: Seq<char> },
    Editing { metadata: PaperMetadataView, filename: Seq<char>, field: Field },
    Accepted { filename: Seq<char> },
    Cancelled,
}

/// An answer of the user over sequences of characters.
pub enum EventView {
    Choice(UserChoice),
    Text(Seq<char>),
}

impl View for Session {
    type V = SessionView;

    open spec fn view(&self) -> SessionView {
        match *self {
            Session::Proposed { metadata, filename } => SessionView::Proposed {
                metadata: metadata@,
                filename: filename@,
            },
            Session::Editing { metadata, filename, field } => SessionView::Editing {
                metadata: metadata@,
                filename: filename@,
                field,
            },
            Session::Accepted { filename } => SessionView::Accepted { filename: filename@ },
            Session::Cancelled => SessionView::Cancelled,
        }
    }
}

impl View for Event {
    type V = EventView;

    open spec fn view(&self) -> EventView {
        match *self {
            Event::Choice(choice) => EventView::Choice(choice),
            Event::Text(text) => EventView::Text(text@),
        }
    }
}

/// The views of a sequence of answers.
pub open spec fn event_views(events: Seq<Event>) -> Seq<EventView> {
    events.map_values(|e: Event| e@)
}

/// The name with the extension added where it was missing.
pub open spec fn with_extension(name: Seq<char>) -> Seq<char> {
    if has_extension(name) {
        name
    } else {
        name + pdf_extension()
    }
}

/// The field that a choice from the menu opens for editing, if any.
pub open spec fn field_of(choice: UserChoice) -> Option<Field> {
    match choice {
        UserChoice::Yes => None,
        UserChoice::No => None,
        UserChoice::Edit => Some(Field::Filename),
        UserChoice::EditAuthor => Some(Field::Author),
        UserChoice::EditYear => Some(Field::Year),
        UserChoice::EditTitle => Some(Field::Title),
    }
}

/// The proposal that follows an edit. An edit of the whole name keeps the
/// metadata and takes the text as the name, with the extension added where it
/// was missing. An edit of a field replaces the field and builds the name
/// anew from the metadata.
pub open spec fn after_edit(
    metadata: PaperMetadataView,
    field: Field,
    text: Seq<char>,
) -> SessionView {
    match field {
        Field::Filename => SessionView::Proposed { metadata, filename: with_extension(text) },
        Field::Author => {
            let changed = PaperMetadataView { first_author: text, ..metadata };
            SessionView::Proposed { metadata: changed, filename: filename_of(changed) }
        },
        Field::Year => {
            let changed = PaperMetadataView { year: text, ..metadata };
            SessionView::Proposed { metadata: changed, filename: filename_of(changed) }
        },
        Field::Title => {
            let changed = PaperMetadataView { title: text, ..metadata };
            SessionView::Proposed { metadata: changed, filename: filename_of(changed) }
        },
    }
}

/// The state that follows a state on an answer.
///
/// A proposed name is accepted only if it is valid; an invalid one stays
/// proposed. `No` cancels. Each of the other choices opens an edit, and the
/// text entered ends it with a new proposal. An answer that does not fit the
/// state changes nothing, and the two final states are never left.
pub open spec fn next_session(s: SessionView, e: EventView) -> SessionView {
    match (s, e) {
        (SessionView::Proposed { metadata, filename }, EventView::Choice(choice)) => match choice {
            UserChoice::Yes => if valid_filename(filename) {
                SessionView::Accepted { filename }
            } else {
                s
            },
            UserChoice::No => SessionView::Cancelled,
            _ => SessionView::Editing { metadata, filename, field: field_of(choice).unwrap() },
        },
        (SessionView::Editing { metadata, filename, field }, EventView::Text(text)) => after_edit(
            metadata,
            field,
            text,
        ),
        _ => s,
    }
}

/// What a state asks of the caller.
pub open spec fn prompt_of(s: SessionView) -> Action {
    match s {
        SessionView::Proposed { .. } => Action::AskChoice,
        SessionView::Editing { field, .. } => Action::AskText(field),
        SessionView::Accepted { .. } => Action::Rename,
        SessionView::Cancelled => Action::Stop,
    }
}

/// A proposed name was chosen and is not valid.
pub open spec fn is_refused(s: SessionView, e: EventView) -> bool {
    match (s, e) {
        (SessionView::Proposed { filename, .. }, EventView::Choice(UserChoice::Yes)) => !valid_filename(
            filename,
        ),
        _ => false,
    }
}

/// What the caller is to do after a step: report the refusal of an invalid
/// name, or else what the next state asks for.
pub open spec fn next_action(s: SessionView, e: EventView) -> Action {
    if is_refused(s, e) {
        Action::ReportInvalid
    } else {
        prompt_of(next_session(s, e))
    }
}

/// The state after a sequence of answers, taken one after the other.
pub open spec fn replayed(s: SessionView, events: Seq<EventView>) -> SessionView
    decreases events.len(),
{
    if events.len() == 0 {
        s
    } else {
        next_session(replayed(s, events.drop_last()), events.last())
    }
}

/// A state is sound when it is not `Accepted`, or the accepted name is valid.
pub open spec fn is_sound(s: SessionView) -> bool {
    match s {
        SessionView::Accepted { filename } => valid_filename(filename),
        _ => true,
    }
}

/// The name that a state proposes, edits or has accepted; nothing once the
/// dialogue was cancelled.
pub open spec fn filename_in(s: SessionView) -> Seq<char> {
    match s {
        SessionView::Proposed { filename, .. } => filename,
        SessionView::Editing { filename, .. } => filename,
        SessionView::Accepted { filename } => filename,
        SessionView::Cancelled => Seq::empty(),
    }
}

/// The text that an edit starts from: the name, or the field that is being
/// edited. Outside an edit there is none.
pub open spec fn initial_text(s: SessionView) -> Seq<char> {
    match s {
        SessionView::Editing { metadata, filename, field } => match field {
            Field::Filename => filename,
            Field::Author => metadata.first_author,
            Field::Year => metadata.year,
            Field::Title => metadata.title,
        },
        _ => Seq::empty(),
    }
}

/// The two states in which the dialogue has ended.
pub open spec fn is_final(s: SessionView) -> bool {
    s is Accepted || s is Cancelled
}

impl Session {
    /// The dialogue's first state: the name built from the metadata is
    /// proposed.
    pub fn propose(metadata: PaperMetadata) -> (r: Session)
        ensures
            r@ == (SessionView::Proposed { metadata: metadata@, filename: filename_of(metadata@) }),
    {
        let filename = generate_filename(&metadata);
        Session::Proposed { metadata, filename }
    }

    /// Whether the dialogue has ended.
    pub fn is_over(&self) -> (r: bool)
        ensures
            r == is_final(self@),
    {
        match self {
            Session::Accepted { .. } => true,
            Session::Cancelled => true,
            _ => false,
        }
    }

    /// The name that this state proposes, edits or has accepted.
    pub fn filename(&self) -> (r: String)
        ensures
            r@ == filename_in(self@),
    {
        match self {
            Session::Proposed { filename, .. } => filename.clone(),
            Session::Editing { filename, .. } => filename.clone(),
            Session::Accepted { filename } => filename.clone(),
            Session::Cancelled => String::new(),
        }
    }

    /// The text that the user is given to edit.
    pub fn prefill(&self) -> (r: String)
        ensures
            r@ == initial_text(self@),
    {
        match self {
            Session::Editing { metadata, filename, field } => match field {
                Field::Filename => filename.clone(),
                Field::Author => metadata.first_author.clone(),
                Field::Year => metadata.year.clone(),
                Field::Title => metadata.title.clone(),
            },
            _ => String::new(),
        }
    }

    /// What this state asks of the caller.
    pub fn prompt(&self) -> (r: Action)
        ensures
            r == prompt_of(self@),
    {
        match self {
            Session::Proposed { .. } => Action::AskChoice,
            Session::Editing { field, .. } => Action::AskText(*field),
            Session::Accepted { .. } => Action::Rename,
            Session::Cancelled => Action::Stop,
        }
    }
}

/// The name with the extension added where it was missing.
pub fn ensure_extension(name: String) -> (r: String)
    ensures
        r@ == with_extension(name@),
{
    if has_pdf_extension(name.as_str()) {
        name
    } else {
        proof {
            reveal_strlit(".pdf");
            assert(".pdf"@ =~= pdf_extension());
        }
        name.concat(".pdf")
    }
}

/// The proposal that follows an edit.
fn apply_edit(metadata: PaperMetadata, field: Field, text: &String) -> (r: Session)
    ensures
        r@ == after_edit(metadata@, field, text@),
{
    match field {
        Field::Filename => {
            let filename = ensure_extension(text.clone());
            Session::Proposed { metadata, filename }
        },
        Field::Author => {
            let changed = PaperMetadata {
                first_author: text.clone(),
                year: metadata.year,
                title: metadata.title,
            };
            let filename = generate_filename(&changed);
            Session::Proposed { metadata: changed, filename }
        },
        Field::Year => {
            let changed = PaperMetadata {
                first_author: metadata.first_author,
                year: text.clone(),
                title: metadata.title,
            };
            let filename = generate_filename(&changed);
            Session::Proposed { metadata: changed, filename }
        },
        Field::Title => {
            let changed = PaperMetadata {
                first_author: metadata.first_author,
                year: metadata.year,
                title: text.clone(),
            };
            let filename = generate_filename(&changed);
            Session::Proposed { metadata: changed, filename }
        },
    }
}

/// One step of the dialogue: the state that follows `session` on `event`, and
/// what the caller is to do next. A name is accepted only after it was found
/// valid.
pub fn step(session: Session, event: &Event) -> (r: (Session, Action))
    ensures
        r.0@ == next_session(session@, event@),
        r.1 == next_action(session@, event@),
        is_sound(session@) ==> is_sound(r.0@),
{
    match session {
        Session::Proposed { metadata, filename } => match event {
            Event::Choice(choice) => match choice {
                UserChoice::Yes => {
                    if validate_filename(filename.as_str()) {
                        (Session::Accepted { filename }, Action::Rename)
                    } else {
                        (Session::Proposed { metadata, filename }, Action::ReportInvalid)
                    }
                },
                UserChoice::No => (Session::Cancelled, Action::Stop),
                UserChoice::Edit => (
                    Session::Editing { metadata, filename, field: Field::Filename },
                    Action::AskText(Field::Filename),
                ),
                UserChoice::EditAuthor => (
                    Session::Editing { metadata, filename, field: Field::Author },
                    Action::AskText(Field::Author),
                ),
                UserChoice::EditYear => (
                    Session::Editing { metadata, filename, field: Field::Year },
                    Action::AskText(Field::Year),
                ),
                UserChoice::EditTitle => (
                    Session::Editing { metadata, filename, field: Field::Title },
                    Action::AskText(Field::Title),
                ),
            },
            Event::Text(_) => (Session::Proposed { metadata, filename }, Action::AskChoice),
        },
        Session::Editing { metadata, filename, field } => match event {
            Event::Text(text) => (apply_edit(metadata, field, text), Action::AskChoice),
            Event::Choice(_) => (
                Session::Editing { metadata, filename, field },
                Action::AskText(field),
            ),
        },
        Session::Accepted { filename } => (Session::Accepted { filename }, Action::Rename),
        Session::Cancelled => (Session::Cancelled, Action::Stop),
    }
}

/// Takes the dialogue through a sequence of answers, one after the other.
pub fn replay(session: Session, events: &Vec<Event>) -> (r: Session)
    ensures
        r@ == replayed(session@, event_views(events@)),
        is_sound(session@) ==> is_sound(r@),
{
    let mut current = session;
    let mut i: usize = 0;
    while i < events.len()
        invariant
            i <= events.len(),
            current@ == replayed(session@, event_views(events@).take(i as int)),
            is_sound(session@) ==> is_sound(current@),
        decreases events.len() - i,
    {
        proof {
            let views = event_views(events@);
            assert(views.take(i + 1).drop_last() =~= views.take(i as int));
            assert(views.take(i + 1).last() == events@[i as int]@);
        }
        let (next, _) = step(current, &events[i]);
        current = next;
        i += 1;
    }
    proof {
        assert(event_views(events@).take(events@.len() as int) =~= event_views(events@));
    }
    current
}

/// No step leads to an accepted name that is not valid: a sound state is
/// followed by a sound state.
pub proof fn lemma_step_keeps_sound(s: SessionView, e: EventView)
    requires
        is_sound(s),
    ensures
        is_sound(next_session(s, e)),
{
}

/// A step accepts a name only from a proposal, on the choice `Yes`, and only
/// if the name is valid; the accepted name is the proposed one.
pub proof fn lemma_accept_only_valid(s: SessionView, e: EventView)
    requires
        !(s is Accepted),
        next_session(s, e) is Accepted,
    ensures
        s is Proposed,
        e == EventView::Choice(UserChoice::Yes),
        next_session(s, e)->Accepted_filename == s->Proposed_filename,
        valid_filename(s->Proposed_filename),
        next_action(s, e) == Action::Rename,
{
}

/// A step cancels only from a proposal, on the choice `No`.
pub proof fn lemma_cancel_only_on_no(s: SessionView, e: EventView)
    requires
        !(s is Cancelled),
        next_session(s, e) is Cancelled,
    ensures
        s is Proposed,
        e == EventView::Choice(UserChoice::No),
        next_action(s, e) == Action::Stop,
{
}

/// Whatever the answers, a dialogue that starts in a sound state ends in one:
/// the name it accepted, if any, is valid.
pub proof fn lemma_replay_keeps_sound(s: SessionView, events: Seq<EventView>)
    requires
        is_sound(s),
    ensures
        is_sound(replayed(s, events)),
    decreases events.len(),
{
    if events.len() > 0 {
        lemma_replay_keeps_sound(s, events.drop_last());
    }
}

/// Once the dialogue has ended, no answer changes its state.
pub proof fn lemma_final_states_stay(s: SessionView, events: Seq<EventView>)
    requires
        is_final(s),
    ensures
        replayed(s, events) == s,
    decreases events.len(),
{
    if events.len() > 0 {
        lemma_final_states_stay(s, events.drop_last());
    }
}

} // verus!
