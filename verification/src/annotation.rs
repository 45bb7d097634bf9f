//! Notes on a text that point at a file.

use crate::error::{view_ok, SchemaError};
use crate::json::{Json, JsonView};
use crate::names::lemma_field_names;
use crate::schema::{no_fields, object_of, put, tagged, tagged_view};
use vstd::prelude::*;

verus! {

/// The part of a file that a text quotes.
#[derive(Clone, Debug, PartialEq, Eq)]
pub struct FileCitation {
    pub file_id: String,
    pub quote: String,
}

pub struct FileCitationView {
    pub file_id: Seq<char>,
    pub quote: Seq<char>,
}

impl View for FileCitation {
    type V = FileCitationView;

    open spec fn view(&self) -> FileCitationView {
        FileCitationView { file_id: self.file_id@, quote: self.quote@ }
    }
}

impl DeepView for FileCitation {
    type V = FileCitationView;

    open spec fn deep_view(&self) -> FileCitationView {
        self@
    }
}

impl FileCitationView {
    pub open spec fn to_json(self) -> JsonView {
        JsonView::Object(
            Map::empty().insert("file_id"@, JsonView::String(self.file_id)).insert(
                "quote"@,
                JsonView::String(self.quote),
            ),
        )
    }

    pub open spec fn from_json(json: JsonView) -> Result<FileCitationView, SchemaError> {
        let file_id = json.string_field("file_id"@);
        let quote = json.string_field("quote"@);
        if file_id is Err {
            Err(file_id->Err_0)
        } else if quote is Err {
            Err(quote->Err_0)
        } else {
            Ok(FileCitationView { file_id: file_id->Ok_0, quote: quote->Ok_0 })
        }
    }
}

impl FileCitation {
    pub fn to_json(&self) -> (json: Json)
        ensures
            json@ == self@.to_json(),
    {
        let mut fields = no_fields();
        put(&mut fields, "file_id", Json::String(self.file_id.clone()));
        put(&mut fields, "quote", Json::String(self.quote.clone()));
        object_of(fields)
    }

    pub fn from_json(json: &Json) -> (result: Result<FileCitation, SchemaError>)
        ensures
            view_ok(result) == FileCitationView::from_json(json@),
    {
        let file_id = json.string_field("file_id")?;
        let quote = json.string_field("quote")?;
        Ok(FileCitation { file_id, quote })
    }
}

/// Reading a citation that was written gives it back.
pub proof fn lemma_file_citation_round_trip(citation: FileCitationView)
    ensures
        FileCitationView::from_json(citation.to_json()) == Ok::<FileCitationView, SchemaError>(
            citation,
        ),
{
    lemma_field_names();
}

/// The file that a path in a text stands for.
#[derive(Clone, Debug, PartialEq, Eq)]
pub struct FilePath {
    pub file_id: String,
}

pub struct FilePathView {
    pub file_id: Seq<char>,
}

impl View for FilePath {
    type V = FilePathView;

    open spec fn view(&self) -> FilePathView {
        FilePathView { file_id: self.file_id@ }
    }
}

impl DeepView for FilePath {
    type V = FilePathView;

    open spec fn deep_view(&self) -> FilePathView {
        self@
    }
}

impl FilePathView {
    pub open spec fn to_json(self) -> JsonView {
        JsonView::Object(Map::empty().insert("file_id"@, JsonView::String(self.file_id)))
    }

    pub open spec fn from_json(json: JsonView) -> Result<FilePathView, SchemaError> {
        match json.string_field("file_id"@) {
            Ok(file_id) => Ok(FilePathView { file_id }),
            Err(error) => Err(error),
        }
    }
}

impl FilePath {
    pub fn to_json(&self) -> (json: Json)
        ensures
            json@ == self@.to_json(),
    {
        let mut fields = no_fields();
        put(&mut fields, "file_id", Json::String(self.file_id.clone()));
        object_of(fields)
    }

    pub fn from_json(json: &Json) -> (result: Result<FilePath, SchemaError>)
        ensures
            view_ok(result) == FilePathView::from_json(json@),
    {
        let file_id = json.string_field("file_id")?;
        Ok(FilePath { file_id })
    }
}

/// Reading a file path that was written gives it back.
pub proof fn lemma_file_path_round_trip(path: FilePathView)
    ensures
        FilePathView::from_json(path.to_json()) == Ok::<FilePathView, SchemaError>(path),
{
}

/// A stretch of a text that cites a file.
#[derive(Clone, Debug, PartialEq, Eq)]
pub struct FileCitationAnnotation {
    pub text: String,
    pub file_citation: FileCitation,
    pub start_index: u32,
    pub end_index: u32,
}

pub struct FileCitationAnnotationView {
    pub text: Seq<char>,
    pub file_citation: FileCitationView,
    pub start_index: u32,
    pub end_index: u32,
}

impl View for FileCitationAnnotation {
    type V = FileCitationAnnotationView;

    open spec fn view(&self) -> FileCitationAnnotationView {
        FileCitationAnnotationView {
            text: self.text@,
            file_citation: self.file_citation@,
            start_index: self.start_index,
            end_index: self.end_index,
        }
    }
}

impl DeepView for FileCitationAnnotation {
    type V = FileCitationAnnotationView;

    open spec fn deep_view(&self) -> FileCitationAnnotationView {
        self@
    }
}

impl FileCitationAnnotationView {
    pub open spec fn to_json(self) -> JsonView {
        JsonView::Object(
            Map::empty().insert("text"@, JsonView::String(self.text)).insert(
                "file_citation"@,
                self.file_citation.to_json(),
            ).insert("start_index"@, JsonView::of_u32(self.start_index)).insert(
                "end_index"@,
                JsonView::of_u32(self.end_index),
            ),
        )
    }

    pub open spec fn from_json(json: JsonView) -> Result<FileCitationAnnotationView, SchemaError> {
        let text = json.string_field("text"@);
        let file_citation = match json.required("file_citation"@) {
            Ok(value) => FileCitationView::from_json(value),
            Err(error) => Err(error),
        };
        let start_index = json.u32_field("start_index"@);
        let end_index = json.u32_field("end_index"@);
        if text is Err {
            Err(text->Err_0)
        } else if file_citation is Err {
            Err(file_citation->Err_0)
        } else if start_index is Err {
            Err(start_index->Err_0)
        } else if end_index is Err {
            Err(end_index->Err_0)
        } else {
            Ok(
                FileCitationAnnotationView {
                    text: text->Ok_0,
                    file_citation: file_citation->Ok_0,
                    start_index: start_index->Ok_0,
                    end_index: end_index->Ok_0,
                },
            )
        }
    }
}

impl FileCitationAnnotation {
    pub fn to_json(&self) -> (json: Json)
        ensures
            json@ == self@.to_json(),
    {
        let mut fields = no_fields();
        put(&mut fields, "text", Json::String(self.text.clone()));
        put(&mut fields, "file_citation", self.file_citation.to_json());
        put(&mut fields, "start_index", Json::of_u32(self.start_index));
        put(&mut fields, "end_index", Json::of_u32(self.end_index));
        object_of(fields)
    }

    pub fn from_json(json: &Json) -> (result: Result<FileCitationAnnotation, SchemaError>)
        ensures
            view_ok(result) == FileCitationAnnotationView::from_json(json@),
    {
        let text = json.string_field("text")?;
        let file_citation = FileCitation::from_json(json.required("file_citation")?)?;
        let start_index = json.u32_field("start_index")?;
        let end_index = json.u32_field("end_index")?;
        Ok(FileCitationAnnotation { text, file_citation, start_index, end_index })
    }
}

/// Reading a citing annotation that was written gives it back.
pub proof fn lemma_file_citation_annotation_round_trip(annotation: FileCitationAnnotationView)
    ensures
        FileCitationAnnotationView::from_json(annotation.to_json()) == Ok::<
            FileCitationAnnotationView,
            SchemaError,
        >(annotation),
{
    lemma_field_names();
    lemma_file_citation_round_trip(annotation.file_citation);
}

/// A stretch of a text that names a file by a path.
#[derive(Clone, Debug, PartialEq, Eq)]
pub struct FilePathAnnotation {
    pub text: String,
    pub file_path: FilePath,
    pub start_index: u32,
    pub end_index: u32,
}

pub struct FilePathAnnotationView {
    pub text: Seq<char>,
    pub file_path: FilePathView,
    pub start_index: u32,
    pub end_index: u32,
}

impl View for FilePathAnnotation {
    type V = FilePathAnnotationView;

    open spec fn view(&self) -> FilePathAnnotationView {
        FilePathAnnotationView {
            text: self.text@,
            file_path: self.file_path@,
            start_index: self.start_index,
            end_index: self.end_index,
        }
    }
}

impl DeepView for FilePathAnnotation {
    type V = FilePathAnnotationView;

    open spec fn deep_view(&self) -> FilePathAnnotationView {
        self@
    }
}

impl FilePathAnnotationView {
    pub open spec fn to_json(self) -> JsonView {
        JsonView::Object(
            Map::empty().insert("text"@, JsonView::String(self.text)).insert(
                "file_path"@,
                self.file_path.to_json(),
            ).insert("start_index"@, JsonView::of_u32(self.start_index)).insert(
                "end_index"@,
                JsonView::of_u32(self.end_index),
            ),
        )
    }

    pub open spec fn from_json(json: JsonView) -> Result<FilePathAnnotationView, SchemaError> {
        let text = json.string_field("text"@);
        let file_path = match json.required("file_path"@) {
            Ok(value) => FilePathView::from_json(value),
            Err(error) => Err(error),
        };
        let start_index = json.u32_field("start_index"@);
        let end_index = json.u32_field("end_index"@);
        if text is Err {
            Err(text->Err_0)
        } else if file_path is Err {
            Err(file_path->Err_0)
        } else if start_index is Err {
            Err(start_index->Err_0)
        } else if end_index is Err {
            Err(end_index->Err_0)
        } else {
            Ok(
                FilePathAnnotationView {
                    text: text->Ok_0,
                    file_path: file_path->Ok_0,
                    start_index: start_index->Ok_0,
                    end_index: end_index->Ok_0,
                },
            )
        }
    }
}

impl FilePathAnnotation {
    pub fn to_json(&self) -> (json: Json)
        ensures
            json@ == self@.to_json(),
    {
        let mut fields = no_fields();
        put(&mut fields, "text", Json::String(self.text.clone()));
        put(&mut fields, "file_path", self.file_path.to_json());
        put(&mut fields, "start_index", Json::of_u32(self.start_index));
        put(&mut fields, "end_index", Json::of_u32(self.end_index));
        object_of(fields)
    }

    pub fn from_json(json: &Json) -> (result: Result<FilePathAnnotation, SchemaError>)
        ensures
            view_ok(result) == FilePathAnnotationView::from_json(json@),
    {
        let text = json.string_field("text")?;
        let file_path = FilePath::from_json(json.required("file_path")?)?;
        let start_index = json.u32_field("start_index")?;
        let end_index = json.u32_field("end_index")?;
        Ok(FilePathAnnotation { text, file_path, start_index, end_index })
    }
}

/// Reading a path annotation that was written gives it back.
pub proof fn lemma_file_path_annotation_round_trip(annotation: FilePathAnnotationView)
    ensures
        FilePathAnnotationView::from_json(annotation.to_json()) == Ok::<
            FilePathAnnotationView,
            SchemaError,
        >(annotation),
{
    lemma_field_names();
    lemma_file_path_round_trip(annotation.file_path);
}

/// A note on a text. On the wire the `type` field tells the two kinds apart:
/// `file_citation` or `file_path`.
#[derive(Clone, Debug, PartialEq, Eq)]
pub enum Annotation {
    FileCitation(FileCitationAnnotation),
    FilePath(FilePathAnnotation),
}

pub enum AnnotationView {
    FileCitation(FileCitationAnnotationView),
    FilePath(FilePathAnnotationView),
}

impl View for Annotation {
    type V = AnnotationView;

    open spec fn view(&self) -> AnnotationView {
        match self {
            Annotation::FileCitation(annotation) => AnnotationView::FileCitation(annotation@),
            Annotation::FilePath(annotation) => AnnotationView::FilePath(annotation@),
        }
    }
}

impl DeepView for Annotation {
    type V = AnnotationView;

    open spec fn deep_view(&self) -> AnnotationView {
        self@
    }
}

impl AnnotationView {
    pub open spec fn to_json(self) -> JsonView {
        match self {
            AnnotationView::FileCitation(annotation) => tagged_view(
                annotation.to_json(),
                "file_citation"@,
            ),
            AnnotationView::FilePath(annotation) => tagged_view(
                annotation.to_json(),
                "file_path"@,
            ),
        }
    }

    pub open spec fn from_json(json: JsonView) -> Result<AnnotationView, SchemaError> {
        match json.string_field("type"@) {
            Err(error) => Err(error),
            Ok(tag) => if tag == "file_citation"@ {
                match FileCitationAnnotationView::from_json(json) {
                    Ok(annotation) => Ok(AnnotationView::FileCitation(annotation)),
                    Err(error) => Err(error),
                }
            } else if tag == "file_path"@ {
                match FilePathAnnotationView::from_json(json) {
                    Ok(annotation) => Ok(AnnotationView::FilePath(annotation)),
                    Err(error) => Err(error),
                }
            } else {
                Err(SchemaError::UnknownVariant)
            },
        }
    }
}

impl Annotation {
    pub fn to_json(&self) -> (json: Json)
        ensures
            json@ == self@.to_json(),
    {
        match self {
            Annotation::FileCitation(annotation) => tagged(annotation.to_json(), "file_citation"),
            Annotation::FilePath(annotation) => tagged(annotation.to_json(), "file_path"),
        }
    }

    pub fn from_json(json: &Json) -> (result: Result<Annotation, SchemaError>)
        ensures
            view_ok(result) == AnnotationView::from_json(json@),
    {
        let tag = json.string_field("type")?;
        if tag == String::from_str("file_citation") {
            Ok(Annotation::FileCitation(FileCitationAnnotation::from_json(json)?))
        } else if tag == String::from_str("file_path") {
            Ok(Annotation::FilePath(FilePathAnnotation::from_json(json)?))
        } else {
            Err(SchemaError::UnknownVariant)
        }
    }
}

/// Reading an annotation that was written gives it back.
pub proof fn lemma_annotation_round_trip(annotation: AnnotationView)
    ensures
        AnnotationView::from_json(annotation.to_json()) == Ok::<AnnotationView, SchemaError>(
            annotation,
        ),
{
    lemma_field_names();
    match annotation {
        AnnotationView::FileCitation(inner) => {
            lemma_file_citation_annotation_round_trip(inner);
        },
        AnnotationView::FilePath(inner) => {
            lemma_file_path_annotation_round_trip(inner);
        },
    }
}

/// The `type` field alone decides which kind of annotation is read: under
/// `file_citation` never a path annotation, under `file_path` never a citing
/// one, and under any other tag nothing but an unknown-variant error.
pub proof fn lemma_annotation_dispatch(json: JsonView, tag: Seq<char>)
    requires
        json.string_field("type"@) == Ok::<Seq<char>, SchemaError>(tag),
    ensures
        tag == "file_citation"@ ==> !(AnnotationView::from_json(json) matches Ok(
            AnnotationView::FilePath(_),
        )),
        tag == "file_path"@ ==> !(AnnotationView::from_json(json) matches Ok(
            AnnotationView::FileCitation(_),
        )),
        tag != "file_citation"@ && tag != "file_path"@ ==> AnnotationView::from_json(json) == Err::<
            AnnotationView,
            SchemaError,
        >(SchemaError::UnknownVariant),
{
    lemma_field_names();
}

} // verus!
