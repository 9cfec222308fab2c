//! Where the chat template of a model alias comes from, and what becomes of
//! the hub's answers.

use vstd::prelude::*;
use vstd::string::StringExecFns;
use crate::redirect::texts;

verus! {

/// `validator::ValidationErrors`, what a validation recorded: carried
/// through as it came, and read only by `error_fields`.
#[verifier::external_type_specification]
#[verifier::external_body]
pub struct ExValidationErrors(validator::ValidationErrors);

/// The names of the fields for which a validation recorded an error: the
/// keys of the map inside `validator::ValidationErrors`.
pub uninterp spec fn invalid_fields(errors: validator::ValidationErrors) -> Set<Seq<char>>;

/// The field names of `validator::ValidationErrors`, read off the keys of
/// the map that `ValidationErrors::errors` returns. The map holds each field
/// once and is walked in no fixed order, so the contract claims the set of
/// the names and that none comes twice, and nothing of their order.
#[verifier::external_body]
fn error_fields(errors: &validator::ValidationErrors) -> (names: Vec<String>)
    ensures
        texts(names@).to_set() == invalid_fields(*errors),
        texts(names@).no_duplicates(),
{
    errors.errors().keys().map(|field| field.to_string()).collect()
}

/// The file of a model repository that holds its chat template.
pub const TOKENIZER_CONFIG_JSON: &'static str = "tokenizer_config.json";

/// A model repository on the hub.
#[derive(Debug, PartialEq, Eq)]
pub struct Repo {
    pub user: String,
    pub name: String,
}

impl Clone for Repo {
    fn clone(&self) -> (r: Repo)
        ensures
            r == *self,
    {
        Repo { user: self.user.clone(), name: self.name.clone() }
    }
}

/// A well-known chat template, with the repository that holds it.
#[derive(Debug, Clone, PartialEq, Eq)]
pub struct ChatTemplateId {
    pub id: String,
    pub repo: Repo,
}

/// The source of an alias's chat template.
#[derive(Debug, Clone, PartialEq, Eq)]
pub enum ChatTemplateType {
    Id(ChatTemplateId),
    Repo(Repo),
    Embedded,
}

/// A file of a repository in the local cache.
#[derive(Debug, Clone, PartialEq, Eq)]
pub struct HubFile {
    pub repo: Repo,
    pub filename: String,
    pub path: String,
}

/// A chat template with the tokens it refers to.
#[derive(Debug, Clone, PartialEq, Eq)]
pub struct ChatTemplate {
    pub chat_template: Option<String>,
    pub bos_token: Option<String>,
    pub eos_token: Option<String>,
}

/// A failure of the hub.
#[derive(Debug, Clone, PartialEq, Eq)]
pub enum HubServiceError {
    /// The file is not in the local cache.
    NotFound(String),
    /// The file could not be fetched or stored.
    Download(String),
    /// No template is embedded for the alias.
    UnknownAlias(String),
}

/// A tokenizer configuration that could not be read as a chat template.
#[derive(Debug, Clone, PartialEq, Eq)]
pub struct ChatTemplateError {
    pub message: String,
}

/// A chat template that broke structural rules, with what the validation
/// recorded.
#[derive(Debug, PartialEq)]
pub struct ObjValidationError {
    pub errors: validator::ValidationErrors,
}

impl ObjValidationError {
    /// The names of the invalid fields, each once, in no fixed order.
    pub fn fields(&self) -> (names: Vec<String>)
        ensures
            texts(names@).to_set() == invalid_fields(self.errors),
            texts(names@).no_duplicates(),
    {
        error_fields(&self.errors)
    }
}

/// Why a chat template could not be had.
#[derive(Debug, PartialEq)]
pub enum ObjExtsError {
    HubService(HubServiceError),
    ChatTemplate(ChatTemplateError),
    ObjValidationError(ObjValidationError),
}

impl From<HubServiceError> for ObjExtsError {
    fn from(e: HubServiceError) -> (r: ObjExtsError) {
        ObjExtsError::HubService(e)
    }
}

impl vstd::std_specs::convert::FromSpecImpl<HubServiceError> for ObjExtsError {
    open spec fn obeys_from_spec() -> bool {
        true
    }

    open spec fn from_spec(e: HubServiceError) -> ObjExtsError {
        ObjExtsError::HubService(e)
    }
}

impl From<ChatTemplateError> for ObjExtsError {
    fn from(e: ChatTemplateError) -> (r: ObjExtsError) {
        ObjExtsError::ChatTemplate(e)
    }
}

impl vstd::std_specs::convert::FromSpecImpl<ChatTemplateError> for ObjExtsError {
    open spec fn obeys_from_spec() -> bool {
        true
    }

    open spec fn from_spec(e: ChatTemplateError) -> ObjExtsError {
        ObjExtsError::ChatTemplate(e)
    }
}

impl From<ObjValidationError> for ObjExtsError {
    fn from(e: ObjValidationError) -> (r: ObjExtsError) {
        ObjExtsError::ObjValidationError(e)
    }
}

impl vstd::std_specs::convert::FromSpecImpl<ObjValidationError> for ObjExtsError {
    open spec fn obeys_from_spec() -> bool {
        true
    }

    open spec fn from_spec(e: ObjValidationError) -> ObjExtsError {
        ObjExtsError::ObjValidationError(e)
    }
}

impl From<validator::ValidationErrors> for ObjExtsError {
    fn from(errors: validator::ValidationErrors) -> (r: ObjExtsError) {
        ObjExtsError::ObjValidationError(ObjValidationError { errors })
    }
}

impl vstd::std_specs::convert::FromSpecImpl<validator::ValidationErrors> for ObjExtsError {
    open spec fn obeys_from_spec() -> bool {
        true
    }

    open spec fn from_spec(errors: validator::ValidationErrors) -> ObjExtsError {
        ObjExtsError::ObjValidationError(ObjValidationError { errors })
    }
}

/// A file to ask the hub for.
#[derive(Debug, Clone, PartialEq, Eq)]
pub struct FileRequest {
    pub repo: Repo,
    pub filename: String,
    pub revision: Option<String>,
}

/// The one call to the hub that resolves a source.
#[derive(Debug, Clone, PartialEq, Eq)]
pub enum TemplateLookup {
    /// Find the file in the local cache; hand what comes of it to
    /// `template_from_file`.
    LocalFile(FileRequest),
    /// Ask the registry of embedded templates; hand the answer to
    /// `template_from_registry`.
    Embedded { alias: String },
}

/// Whether the cache has to be filled for a source.
#[derive(Debug, Clone, PartialEq, Eq)]
pub enum DownloadStep {
    /// Download the file; hand the answer to `download_outcome`.
    Fetch(FileRequest),
    /// The source needs no file.
    NotNeeded,
}

/// What came of looking a tokenizer configuration up, reading it and
/// validating it: the first of the three that failed, or the template.
#[derive(Debug, PartialEq)]
pub enum FileOutcome {
    Missing(HubServiceError),
    Malformed(ChatTemplateError),
    Invalid(validator::ValidationErrors),
    Valid(ChatTemplate),
}

impl ChatTemplateType {
    /// The repository that holds the source's template, if a repository does.
    pub open spec fn repo(self) -> Option<Repo> {
        match self {
            ChatTemplateType::Id(id) => Some(id.repo),
            ChatTemplateType::Repo(repo) => Some(repo),
            ChatTemplateType::Embedded => None,
        }
    }

    /// The tokenizer configuration of a repository, at no pinned revision.
    pub open spec fn asks_tokenizer_config(request: FileRequest, repo: Repo) -> bool {
        &&& request.repo == repo
        &&& request.filename@ == TOKENIZER_CONFIG_JSON@
        &&& request.revision.is_none()
    }

    /// The lookup that belongs to a source: the registry for an embedded
    /// template, under the alias; else the tokenizer configuration of the
    /// source's repository.
    pub open spec fn is_lookup(self, alias: Seq<char>, lookup: TemplateLookup) -> bool {
        match self.repo() {
            Some(repo) => lookup matches TemplateLookup::LocalFile(request)
                && Self::asks_tokenizer_config(request, repo),
            None => lookup matches TemplateLookup::Embedded { alias: a } && a@ == alias,
        }
    }

    /// The download that belongs to a source: none for an embedded template.
    pub open spec fn is_download(self, step: DownloadStep) -> bool {
        match self.repo() {
            Some(repo) => step matches DownloadStep::Fetch(request) && Self::asks_tokenizer_config(
                request,
                repo,
            ),
            None => step == DownloadStep::NotNeeded,
        }
    }

    fn tokenizer_config(repo: &Repo) -> (request: FileRequest)
        ensures
            Self::asks_tokenizer_config(request, *repo),
    {
        FileRequest {
            repo: repo.clone(),
            filename: String::from_str(TOKENIZER_CONFIG_JSON),
            revision: None,
        }
    }
}

pub trait IntoChatTemplate {
    /// The call to the hub that resolves the source for an alias.
    fn into_chat_template(&self, alias: &str) -> TemplateLookup;
}

impl IntoChatTemplate for ChatTemplateType {
    fn into_chat_template(&self, alias: &str) -> (lookup: TemplateLookup)
        ensures
            self.is_lookup(alias@, lookup),
    {
        match self {
            ChatTemplateType::Id(id) => TemplateLookup::LocalFile(Self::tokenizer_config(&id.repo)),
            ChatTemplateType::Repo(repo) => TemplateLookup::LocalFile(Self::tokenizer_config(repo)),
            ChatTemplateType::Embedded => TemplateLookup::Embedded { alias: String::from_str(alias) },
        }
    }
}

pub trait HubDownloadable {
    /// The download that fills the cache for the source, if it needs one.
    fn download(&self) -> DownloadStep;
}

impl HubDownloadable for ChatTemplateType {
    fn download(&self) -> (step: DownloadStep)
        ensures
            self.is_download(step),
    {
        match self {
            ChatTemplateType::Id(id) => DownloadStep::Fetch(Self::tokenizer_config(&id.repo)),
            ChatTemplateType::Repo(repo) => DownloadStep::Fetch(Self::tokenizer_config(repo)),
            ChatTemplateType::Embedded => DownloadStep::NotNeeded,
        }
    }
}

/// The template of a tokenizer configuration, or the error of the first step
/// that failed. A template that broke structural rules is refused with what
/// the validation recorded, its invalid fields included, and not as a file
/// that could not be read.
pub fn template_from_file(outcome: FileOutcome) -> (r: Result<ChatTemplate, ObjExtsError>)
    ensures
        r == match outcome {
            FileOutcome::Missing(e) => Err::<ChatTemplate, ObjExtsError>(
                ObjExtsError::HubService(e),
            ),
            FileOutcome::Malformed(e) => Err(ObjExtsError::ChatTemplate(e)),
            FileOutcome::Invalid(errors) => Err(
                ObjExtsError::ObjValidationError(ObjValidationError { errors }),
            ),
            FileOutcome::Valid(template) => Ok(template),
        },
{
    match outcome {
        FileOutcome::Missing(e) => Err(ObjExtsError::from(e)),
        FileOutcome::Malformed(e) => Err(ObjExtsError::from(e)),
        FileOutcome::Invalid(errors) => Err(ObjExtsError::from(errors)),
        FileOutcome::Valid(template) => Ok(template),
    }
}

/// The embedded template of an alias, or the registry's failure.
pub fn template_from_registry(answer: Result<ChatTemplate, HubServiceError>) -> (r: Result<
    ChatTemplate,
    ObjExtsError,
>)
    ensures
        r == match answer {
            Ok(template) => Ok::<ChatTemplate, ObjExtsError>(template),
            Err(e) => Err(ObjExtsError::HubService(e)),
        },
{
    match answer {
        Ok(template) => Ok(template),
        Err(e) => Err(ObjExtsError::from(e)),
    }
}

/// The downloaded file, or the hub's failure.
pub fn download_outcome(answer: Result<HubFile, HubServiceError>) -> (r: Result<
    Option<HubFile>,
    ObjExtsError,
>)
    ensures
        r == match answer {
            Ok(file) => Ok::<Option<HubFile>, ObjExtsError>(Some(file)),
            Err(e) => Err(ObjExtsError::HubService(e)),
        },
{
    match answer {
        Ok(file) => Ok(Some(file)),
        Err(e) => Err(ObjExtsError::from(e)),
    }
}

/// A source with an embedded template never asks the hub for a file, neither
/// to read it nor to download it; every other source asks for the tokenizer
/// configuration of its repository, in both cases.
pub proof fn files_are_asked_for_repositories_only(
    source: ChatTemplateType,
    alias: Seq<char>,
    lookup: TemplateLookup,
    step: DownloadStep,
)
    requires
        source.is_lookup(alias, lookup),
        source.is_download(step),
    ensures
        source is Embedded ==> lookup is Embedded && step is NotNeeded,
        !(source is Embedded) ==> lookup is LocalFile && step is Fetch,
        lookup matches TemplateLookup::LocalFile(request) ==> request.filename@
            == TOKENIZER_CONFIG_JSON@ && Some(request.repo) == source.repo(),
        step matches DownloadStep::Fetch(request) ==> request.filename@ == TOKENIZER_CONFIG_JSON@
            && Some(request.repo) == source.repo(),
{
}

} // verus!
