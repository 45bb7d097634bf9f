//! What a message holds: a text with its annotations, or an image file.

use crate::annotation::{lemma_annotation_round_trip, Annotation, AnnotationView};
use crate::error::{view_ok, SchemaError};
use crate::json::{lemma_array_view, Json, JsonView};
use crate::names::lemma_field_names;
use crate::schema::{
    decode_all, encode_all, lemma_decode_all_encode_all, lemma_decode_all_error_stays,
    lemma_decode_all_step, no_fields, object_of, put, tagged, tagged_view,
};
use vstd::prelude::*;

verus! {

/// An image, named by its file.
#[derive(Clone, Debug, PartialEq, Eq)]
pub struct ImageFile {
    pub file_id: String,
}

pub struct ImageFileView {
    pub file_id: Seq<char>,
}

impl View for ImageFile {
    type V = ImageFileView;

    open spec fn view(&self) -> ImageFileView {
        ImageFileView { file_id: self.file_id@ }
    }
}

impl DeepView for ImageFile {
    type V = ImageFileView;

    open spec fn deep_view(&self) -> ImageFileView {
        self@
    }
}

impl ImageFileView {
    pub open spec fn to_json(self) -> JsonView {
        JsonView::Object(Map::empty().insert("file_id"@, JsonView::String(self.file_id)))
    }

    pub open spec fn from_json(json: JsonView) -> Result<ImageFileView, SchemaError> {
        match json.string_field("file_id"@) {
            Ok(file_id) => Ok(ImageFileView { file_id }),
            Err(error) => Err(error),
        }
    }
}

impl ImageFile {
    pub fn to_json(&self) -> (json: Json)
        ensures
            json@ == self@.to_json(),
    {
        let mut fields = no_fields();
        put(&mut fields, "file_id", Json::String(self.file_id.clone()));
        object_of(fields)
    }

    pub fn from_json(json: &Json) -> (result: Result<ImageFile, SchemaError>)
        ensures
            view_ok(result) == ImageFileView::from_json(json@),
    {
        let file_id = json.string_field("file_id")?;
        Ok(ImageFile { file_id })
    }
}

/// Reading an image file that was written gives it back.
pub proof fn lemma_image_file_round_trip(image: ImageFileView)
    ensures
        ImageFileView::from_json(image.to_json()) == Ok::<ImageFileView, SchemaError>(image),
{
}

/// The image arm of a message's content.
#[derive(Clone, Debug, PartialEq, Eq)]
pub struct ImageFileContent {
    pub image_file: ImageFile,
}

pub struct ImageFileContentView {
    pub image_file: ImageFileView,
}

impl View for ImageFileContent {
    type V = ImageFileContentView;

    open spec fn view(&self) -> ImageFileContentView {
        ImageFileContentView { image_file: self.image_file@ }
    }
}

impl DeepView for ImageFileContent {
    type V = ImageFileContentView;

    open spec fn deep_view(&self) -> ImageFileContentView {
        self@
    }
}

impl ImageFileContentView {
    pub open spec fn to_json(self) -> JsonView {
        JsonView::Object(Map::empty().insert("image_file"@, self.image_file.to_json()))
    }

    pub open spec fn from_json(json: JsonView) -> Result<ImageFileContentView, SchemaError> {
        match json.required("image_file"@) {
            Err(error) => Err(error),
            Ok(value) => match ImageFileView::from_json(value) {
                Ok(image_file) => Ok(ImageFileContentView { image_file }),
                Err(error) => Err(error),
            },
        }
    }
}

impl ImageFileContent {
    pub fn to_json(&self) -> (json: Json)
        ensures
            json@ == self@.to_json(),
    {
        let mut fields = no_fields();
        put(&mut fields, "image_file", self.image_file.to_json());
        object_of(fields)
    }

    pub fn from_json(json: &Json) -> (result: Result<ImageFileContent, SchemaError>)
        ensures
            view_ok(result) == ImageFileContentView::from_json(json@),
    {
        let image_file = ImageFile::from_json(json.required("image_file")?)?;
        Ok(ImageFileContent { image_file })
    }
}

/// Reading image content that was written gives it back.
pub proof fn lemma_image_file_content_round_trip(content: ImageFileContentView)
    ensures
        ImageFileContentView::from_json(content.to_json()) == Ok::<
            ImageFileContentView,
            SchemaError,
        >(content),
{
    lemma_image_file_round_trip(content.image_file);
}

/// A text and the notes on it.
#[derive(Clone, Debug, PartialEq, Eq)]
pub struct Text {
    pub value: String,
    pub annotations: Vec<Annotation>,
}

pub struct TextView {
    pub value: Seq<char>,
    pub annotations: Seq<AnnotationView>,
}

impl View for Text {
    type V = TextView;

    open spec fn view(&self) -> TextView {
        TextView { value: self.value@, annotations: self.annotations.deep_view() }
    }
}

impl DeepView for Text {
    type V = TextView;

    open spec fn deep_view(&self) -> TextView {
        self@
    }
}

/// Annotations on the wire: an array, one object each.
pub open spec fn annotations_to_json(annotations: Seq<AnnotationView>) -> JsonView {
    JsonView::Array(encode_all(annotations, |annotation: AnnotationView| annotation.to_json()))
}

/// The annotations that the items of an array stand for.
pub open spec fn annotations_in(items: Seq<JsonView>) -> Result<Seq<AnnotationView>, SchemaError> {
    decode_all(items, |item: JsonView| AnnotationView::from_json(item))
}

impl TextView {
    pub open spec fn to_json(self) -> JsonView {
        JsonView::Object(
            Map::empty().insert("value"@, JsonView::String(self.value)).insert(
                "annotations"@,
                annotations_to_json(self.annotations),
            ),
        )
    }

    pub open spec fn from_json(json: JsonView) -> Result<TextView, SchemaError> {
        let value = json.string_field("value"@);
        let annotations = match json.required("annotations"@) {
            Err(error) => Err(error),
            Ok(array) => match array.as_items() {
                Err(error) => Err(error),
                Ok(items) => annotations_in(items),
            },
        };
        if value is Err {
            Err(value->Err_0)
        } else if annotations is Err {
            Err(annotations->Err_0)
        } else {
            Ok(TextView { value: value->Ok_0, annotations: annotations->Ok_0 })
        }
    }
}

/// The array of these annotations.
pub fn annotations_json(annotations: &Vec<Annotation>) -> (json: Json)
    ensures
        json@ == annotations_to_json(annotations.deep_view()),
{
    let mut items: Vec<Json> = Vec::new();
    let mut i: usize = 0;
    while i < annotations.len()
        invariant
            i <= annotations.len(),
            items.len() == i,
            forall|j: int| 0 <= j < i ==> items@[j]@ == annotations@[j]@.to_json(),
        decreases annotations.len() - i,
    {
        items.push(annotations[i].to_json());
        i += 1;
    }
    proof {
        lemma_array_view(items);
        assert(Json::Array(items)@->Array_0 =~= annotations_to_json(
            annotations.deep_view(),
        )->Array_0);
    }
    Json::Array(items)
}

/// The annotations that the items of an array stand for.
pub fn annotations_from(items: &Vec<Json>) -> (result: Result<Vec<Annotation>, SchemaError>)
    ensures
        view_ok(result) == annotations_in(items.deep_view()),
{
    let ghost views = items.deep_view();
    let mut annotations: Vec<Annotation> = Vec::new();
    let mut i: usize = 0;
    assert(views.take(0) =~= Seq::empty() && annotations.deep_view() =~= Seq::empty());
    while i < items.len()
        invariant
            i <= items.len(),
            views == items.deep_view(),
            annotations_in(views.take(i as int)) == Ok::<Seq<AnnotationView>, SchemaError>(
                annotations.deep_view(),
            ),
        decreases items.len() - i,
    {
        proof {
            lemma_decode_all_step(
                views,
                |item: JsonView| AnnotationView::from_json(item),
                i as int,
            );
        }
        match Annotation::from_json(&items[i]) {
            Ok(annotation) => {
                let ghost before = annotations.deep_view();
                annotations.push(annotation);
                assert(annotations.deep_view() =~= before.push(annotation@));
            },
            Err(error) => {
                proof {
                    lemma_decode_all_error_stays(
                        views,
                        |item: JsonView| AnnotationView::from_json(item),
                        i as int + 1,
                    );
                }
                return Err(error);
            },
        }
        i += 1;
    }
    assert(views.take(i as int) =~= views);
    Ok(annotations)
}

impl Text {
    pub fn to_json(&self) -> (json: Json)
        ensures
            json@ == self@.to_json(),
    {
        let mut fields = no_fields();
        put(&mut fields, "value", Json::String(self.value.clone()));
        put(&mut fields, "annotations", annotations_json(&self.annotations));
        object_of(fields)
    }

    pub fn from_json(json: &Json) -> (result: Result<Text, SchemaError>)
        ensures
            view_ok(result) == TextView::from_json(json@),
    {
        let value = json.string_field("value")?;
        let annotations = annotations_from(json.required("annotations")?.as_items()?)?;
        Ok(Text { value, annotations })
    }
}

/// Reading annotations that were written gives them back.
pub proof fn lemma_annotations_round_trip(annotations: Seq<AnnotationView>)
    ensures
        annotations_to_json(annotations) is Array,
        annotations_in(annotations_to_json(annotations)->Array_0) == Ok::<
            Seq<AnnotationView>,
            SchemaError,
        >(annotations),
{
    assert forall|i: int| 0 <= i < annotations.len() implies AnnotationView::from_json(
        (#[trigger] annotations[i]).to_json(),
    ) == Ok::<AnnotationView, SchemaError>(annotations[i]) by {
        lemma_annotation_round_trip(annotations[i]);
    }
    lemma_decode_all_encode_all(
        annotations,
        |annotation: AnnotationView| annotation.to_json(),
        |item: JsonView| AnnotationView::from_json(item),
    );
}

/// Reading a text that was written gives it back.
pub proof fn lemma_text_round_trip(text: TextView)
    ensures
        TextView::from_json(text.to_json()) == Ok::<TextView, SchemaError>(text),
{
    lemma_field_names();
    lemma_annotations_round_trip(text.annotations);
}

/// The text arm of a message's content.
#[derive(Clone, Debug, PartialEq, Eq)]
pub struct TextContent {
    pub text: Text,
}

pub struct TextContentView {
    pub text: TextView,
}

impl View for TextContent {
    type V = TextContentView;

    open spec fn view(&self) -> TextContentView {
        TextContentView { text: self.text@ }
    }
}

impl DeepView for TextContent {
    type V = TextContentView;

    open spec fn deep_view(&self) -> TextContentView {
        self@
    }
}

impl TextContentView {
    pub open spec fn to_json(self) -> JsonView {
        JsonView::Object(Map::empty().insert("text"@, self.text.to_json()))
    }

    pub open spec fn from_json(json: JsonView) -> Result<TextContentView, SchemaError> {
        match json.required("text"@) {
            Err(error) => Err(error),
            Ok(value) => match TextView::from_json(value) {
                Ok(text) => Ok(TextContentView { text }),
                Err(error) => Err(error),
            },
        }
    }
}

impl TextContent {
    pub fn to_json(&self) -> (json: Json)
        ensures
            json@ == self@.to_json(),
    {
        let mut fields = no_fields();
        put(&mut fields, "text", self.text.to_json());
        object_of(fields)
    }

    pub fn from_json(json: &Json) -> (result: Result<TextContent, SchemaError>)
        ensures
            view_ok(result) == TextContentView::from_json(json@),
    {
        let text = Text::from_json(json.required("text")?)?;
        Ok(TextContent { text })
    }
}

/// Reading text content that was written gives it back.
pub proof fn lemma_text_content_round_trip(content: TextContentView)
    ensures
        TextContentView::from_json(content.to_json()) == Ok::<TextContentView, SchemaError>(
            content,
        ),
{
    lemma_text_round_trip(content.text);
}

/// The content of a message. On the wire the `type` field tells the two arms
/// apart: `text` or `image_file`.
#[derive(Clone, Debug, PartialEq, Eq)]
pub enum Content {
    Text(TextContent),
    ImageFile(ImageFileContent),
}

pub enum ContentView {
    Text(TextContentView),
    ImageFile(ImageFileContentView),
}

impl View for Content {
    type V = ContentView;

    open spec fn view(&self) -> ContentView {
        match self {
            Content::Text(content) => ContentView::Text(content@),
            Content::ImageFile(content) => ContentView::ImageFile(content@),
        }
    }
}

impl DeepView for Content {
    type V = ContentView;

    open spec fn deep_view(&self) -> ContentView {
        self@
    }
}

impl ContentView {
    pub open spec fn to_json(self) -> JsonView {
        match self {
            ContentView::Text(content) => tagged_view(content.to_json(), "text"@),
            ContentView::ImageFile(content) => tagged_view(content.to_json(), "image_file"@),
        }
    }

    pub open spec fn from_json(json: JsonView) -> Result<ContentView, SchemaError> {
        match json.string_field("type"@) {
            Err(error) => Err(error),
            Ok(tag) => if tag == "text"@ {
                match TextContentView::from_json(json) {
                    Ok(content) => Ok(ContentView::Text(content)),
                    Err(error) => Err(error),
                }
            } else if tag == "image_file"@ {
                match ImageFileContentView::from_json(json) {
                    Ok(content) => Ok(ContentView::ImageFile(content)),
                    Err(error) => Err(error),
                }
            } else {
                Err(SchemaError::UnknownVariant)
            },
        }
    }
}

impl Content {
    pub fn to_json(&self) -> (json: Json)
        ensures
            json@ == self@.to_json(),
    {
        match self {
            Content::Text(content) => tagged(content.to_json(), "text"),
            Content::ImageFile(content) => tagged(content.to_json(), "image_file"),
        }
    }

    pub fn from_json(json: &Json) -> (result: Result<Content, SchemaError>)
        ensures
            view_ok(result) == ContentView::from_json(json@),
    {
        let tag = json.string_field("type")?;
        if tag == String::from_str("text") {
            Ok(Content::Text(TextContent::from_json(json)?))
        } else if tag == String::from_str("image_file") {
            Ok(Content::ImageFile(ImageFileContent::from_json(json)?))
        } else {
            Err(SchemaError::UnknownVariant)
        }
    }
}

/// Reading content that was written gives it back.
pub proof fn lemma_content_round_trip(content: ContentView)
    ensures
        ContentView::from_json(content.to_json()) == Ok::<ContentView, SchemaError>(content),
{
    lemma_field_names();
    match content {
        ContentView::Text(inner) => {
            lemma_text_content_round_trip(inner);
        },
        ContentView::ImageFile(inner) => {
            lemma_image_file_content_round_trip(inner);
        },
    }
}

/// The `type` field alone decides which arm is read: under `text` never the
/// image arm, under `image_file` never the text arm, and under any other tag
/// nothing but an unknown-variant error.
pub proof fn lemma_content_dispatch(json: JsonView, tag: Seq<char>)
    requires
        json.string_field("type"@) == Ok::<Seq<char>, SchemaError>(tag),
    ensures
        tag == "text"@ ==> !(ContentView::from_json(json) matches Ok(ContentView::ImageFile(_)))
            && ContentView::from_json(json) == match TextContentView::from_json(json) {
            Ok(content) => Ok::<ContentView, SchemaError>(ContentView::Text(content)),
            Err(error) => Err(error),
        },
        tag == "image_file"@ ==> !(ContentView::from_json(json) matches Ok(ContentView::Text(_)))
            && ContentView::from_json(json) == match ImageFileContentView::from_json(json) {
            Ok(content) => Ok::<ContentView, SchemaError>(ContentView::ImageFile(content)),
            Err(error) => Err(error),
        },
        tag != "text"@ && tag != "image_file"@ ==> ContentView::from_json(json) == Err::<
            ContentView,
            SchemaError,
        >(SchemaError::UnknownVariant),
{
    lemma_field_names();
}

} // verus!
