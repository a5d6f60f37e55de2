//! The paper's metadata and the decisions taken around the model service.

use vstd::prelude::*;
use vstd::string::StringExecFns;
use crate::error::text_result;
use crate::error::Failure;

verus! {

/// First author, year and title of a paper, as text.
#[derive(Debug, Clone, PartialEq, Eq)]
pub struct PaperMetadata {
    pub first_author: String,
    pub year: String,
    pub title: String,
}

/// A paper's metadata as three sequences of characters.
pub struct PaperMetadataView {
    pub first_author: Seq<char>,
    pub year: Seq<char>,
    pub title: Seq<char>,
}

impl View for PaperMetadata {
    type V = PaperMetadataView;

    open spec fn view(&self) -> PaperMetadataView {
        PaperMetadataView {
            first_author: self.first_author@,
            year: self.year@,
            title: self.title@,
        }
    }
}

/// What precedes the paper's text in the prompt.
pub const PROMPT_HEAD: &'static str =
    "You are analyzing the first page of an academic paper. Extract the following information and respond ONLY with valid JSON in this exact format:\n{\n  \"first_author\": \"LastName\",\n  \"year\": \"YYYY\",\n  \"title\": \"Full Paper Title\"\n}\n\nRules:\n- For first_author: extract ONLY the last name of the first author\n- For year: extract the publication year as a 4-digit number\n- For title: extract the complete paper title\n- Respond with ONLY the JSON, no other text\n\nPaper text:\n";

/// What follows the paper's text in the prompt.
pub const PROMPT_TAIL: &'static str = "\n\nJSON response:";

/// The prompt for a paper's text: the instructions, the text, and the request
/// for the answer.
pub open spec fn prompt_for(pdf_text: Seq<char>) -> Seq<char> {
    PROMPT_HEAD@ + pdf_text + PROMPT_TAIL@
}

/// Builds the prompt that asks the model for the metadata of a paper, given
/// the text of its first pages.
pub fn build_prompt(pdf_text: &str) -> (prompt: String)
    ensures
        prompt@ == prompt_for(pdf_text@),
{
    let mut prompt = String::from_str(PROMPT_HEAD);
    prompt.append(pdf_text);
    prompt.append(PROMPT_TAIL);
    prompt
}

/// The model service's answer to a query for models.
#[derive(Debug, Clone, PartialEq, Eq)]
pub enum ModelsReply {
    /// The service could not be reached.
    Unreachable,
    /// The service answered with a status that is not a success.
    Refused,
    /// The answer could not be read.
    Malformed,
    /// The names of the models, in the order of the answer.
    Models(Vec<String>),
}

/// An answer to a query for models, the names as sequences of characters.
pub enum ModelsReplyView {
    Unreachable,
    Refused,
    Malformed,
    Models(Seq<Seq<char>>),
}

impl View for ModelsReply {
    type V = ModelsReplyView;

    open spec fn view(&self) -> ModelsReplyView {
        match *self {
            ModelsReply::Unreachable => ModelsReplyView::Unreachable,
            ModelsReply::Refused => ModelsReplyView::Refused,
            ModelsReply::Malformed => ModelsReplyView::Malformed,
            ModelsReply::Models(names) => ModelsReplyView::Models(
                names@.map_values(|name: String| name@),
            ),
        }
    }
}

/// The first of the models that an answer names, if it names any.
pub open spec fn first_model(reply: ModelsReplyView) -> Option<Seq<char>> {
    match reply {
        ModelsReplyView::Models(names) => if names.len() > 0 {
            Some(names[0])
        } else {
            None
        },
        _ => None,
    }
}

/// The model to use, given the answers to the queries for the loaded and for
/// the installed models. Without an answer on the installed models the
/// service counts as unreachable. Else the first loaded model is used, if one
/// is named; else the first installed model, if an answer names one.
pub open spec fn selected_model(running: ModelsReplyView, installed: ModelsReplyView) -> Result<
    Seq<char>,
    Failure,
> {
    if installed is Unreachable {
        Err(Failure::ServiceUnreachable)
    } else if first_model(running) is Some {
        Ok(first_model(running).unwrap())
    } else {
        match installed {
            ModelsReplyView::Unreachable => Err(Failure::ServiceUnreachable),
            ModelsReplyView::Refused => Err(Failure::ServiceStatus),
            ModelsReplyView::Malformed => Err(Failure::MalformedReply),
            ModelsReplyView::Models(names) => if names.len() > 0 {
                Ok(names[0])
            } else {
                Err(Failure::NoModelInstalled)
            },
        }
    }
}

/// The first of the models that an answer names, if it names any.
pub fn first_model_of(reply: &ModelsReply) -> (r: Option<String>)
    ensures
        r.deep_view() == first_model(reply@),
{
    match reply {
        ModelsReply::Models(names) => {
            if names.len() > 0 {
                Some(names[0].clone())
            } else {
                None
            }
        },
        _ => None,
    }
}

/// Chooses the model to use: a loaded one before an installed one, the first
/// of each answer.
pub fn select_model(running: &ModelsReply, installed: &ModelsReply) -> (r: Result<String, Failure>)
    ensures
        text_result(r) == selected_model(running@, installed@),
{
    if let ModelsReply::Unreachable = installed {
        return Err(Failure::ServiceUnreachable);
    }
    if let Some(name) = first_model_of(running) {
        return Ok(name);
    }
    match installed {
        ModelsReply::Unreachable => Err(Failure::ServiceUnreachable),
        ModelsReply::Refused => Err(Failure::ServiceStatus),
        ModelsReply::Malformed => Err(Failure::MalformedReply),
        ModelsReply::Models(_) => match first_model_of(installed) {
            Some(name) => Ok(name),
            None => Err(Failure::NoModelInstalled),
        },
    }
}

/// A model is selected exactly when the service answered on the installed
/// models and one of the two answers names a model.
pub proof fn lemma_selection_succeeds(running: ModelsReplyView, installed: ModelsReplyView)
    ensures
        selected_model(running, installed) is Ok <==> !(installed is Unreachable) && (first_model(
            running,
        ) is Some || first_model(installed) is Some),
{
}

/// The model service's answer to a request for a completion.
#[derive(Debug, Clone, PartialEq, Eq)]
pub enum CompletionReply {
    /// The service could not be reached.
    Unreachable,
    /// The service answered with a status that is not a success.
    Refused,
    /// The answer could not be read.
    Malformed,
    /// The text that the model produced.
    Completion(String),
}

/// The text that the model produced, or the failure that the answer stands
/// for.
pub fn completion_text(reply: CompletionReply) -> (r: Result<String, Failure>)
    ensures
        r == match reply {
            CompletionReply::Unreachable => Err::<String, Failure>(Failure::ServiceUnreachable),
            CompletionReply::Refused => Err::<String, Failure>(Failure::ServiceStatus),
            CompletionReply::Malformed => Err::<String, Failure>(Failure::MalformedReply),
            CompletionReply::Completion(text) => Ok::<String, Failure>(text),
        },
{
    match reply {
        CompletionReply::Unreachable => Err(Failure::ServiceUnreachable),
        CompletionReply::Refused => Err(Failure::ServiceStatus),
        CompletionReply::Malformed => Err(Failure::MalformedReply),
        CompletionReply::Completion(text) => Ok(text),
    }
}

/// Metadata is complete when author, year and title are all present.
pub open spec fn is_complete(m: PaperMetadataView) -> bool {
    m.first_author.len() > 0 && m.year.len() > 0 && m.title.len() > 0
}

/// Accepts the metadata read from the model's completion. A completion that
/// could not be read as metadata fails with `MalformedMetadata`; metadata
/// with an empty field fails with `IncompleteMetadata`; any other is handed
/// on as it is.
pub fn accept_metadata(parsed: Option<PaperMetadata>) -> (r: Result<PaperMetadata, Failure>)
    ensures
        r == match parsed {
            None => Err::<PaperMetadata, Failure>(Failure::MalformedMetadata),
            Some(m) => if is_complete(m@) {
                Ok::<PaperMetadata, Failure>(m)
            } else {
                Err::<PaperMetadata, Failure>(Failure::IncompleteMetadata)
            },
        },
{
    match parsed {
        None => Err(Failure::MalformedMetadata),
        Some(m) => {
            if m.first_author.as_str().unicode_len() == 0 || m.year.as_str().unicode_len() == 0
                || m.title.as_str().unicode_len() == 0 {
                Err(Failure::IncompleteMetadata)
            } else {
                Ok(m)
            }
        },
    }
}

} // verus!
