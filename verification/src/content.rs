//! The canonical content model: one unit of message payload, either text or
//! an image, optionally annotated with an audience (the roles the unit is
//! visible to) and a priority.

use vstd::prelude::*;
use vstd::string::*;

use crate::role::Role;

verus! {

/// Priorities are fixed-point thousandths of the unit interval:
/// 0 is the lowest priority, `PRIORITY_MAX` (1.0) the highest.
pub const PRIORITY_MAX: u32 = 1000;

/// Optional metadata attached to a content unit. An absent audience means
/// "visible to all".
#[derive(Clone, Debug, PartialEq)]
pub struct Annotations {
    pub audience: Option<Vec<Role>>,
    pub priority: Option<u32>,
}

pub struct AnnotationsView {
    pub audience: Option<Seq<Role>>,
    pub priority: Option<u32>,
}

impl View for Annotations {
    type V = AnnotationsView;

    open spec fn view(&self) -> AnnotationsView {
        AnnotationsView {
            audience: match self.audience {
                Some(ref roles) => Some(roles@),
                None => None,
            },
            priority: self.priority,
        }
    }
}

impl DeepView for Annotations {
    type V = AnnotationsView;

    open spec fn deep_view(&self) -> AnnotationsView {
        self.view()
    }
}

#[derive(Clone, Debug, PartialEq)]
pub struct TextContent {
    pub text: String,
    pub annotations: Option<Annotations>,
}

#[derive(Clone, Debug, PartialEq)]
pub struct ImageContent {
    pub data: String,
    pub mime_type: String,
    pub annotations: Option<Annotations>,
}

/// One unit of content passed to or from the model.
#[derive(Clone, Debug, PartialEq)]
pub enum Content {
    Text(TextContent),
    Image(ImageContent),
}

pub struct TextContentView {
    pub text: Seq<char>,
    pub annotations: Option<AnnotationsView>,
}

pub struct ImageContentView {
    pub data: Seq<char>,
    pub mime_type: Seq<char>,
    pub annotations: Option<AnnotationsView>,
}

pub enum ContentView {
    Text(TextContentView),
    Image(ImageContentView),
}

impl View for TextContent {
    type V = TextContentView;

    open spec fn view(&self) -> TextContentView {
        TextContentView { text: self.text@, annotations: self.annotations.deep_view() }
    }
}

impl View for ImageContent {
    type V = ImageContentView;

    open spec fn view(&self) -> ImageContentView {
        ImageContentView {
            data: self.data@,
            mime_type: self.mime_type@,
            annotations: self.annotations.deep_view(),
        }
    }
}

impl View for Content {
    type V = ContentView;

    open spec fn view(&self) -> ContentView {
        match self {
            Content::Text(t) => ContentView::Text(t@),
            Content::Image(im) => ContentView::Image(im@),
        }
    }
}

impl DeepView for Content {
    type V = ContentView;

    open spec fn deep_view(&self) -> ContentView {
        self.view()
    }
}

impl ContentView {
    pub open spec fn annotations(self) -> Option<AnnotationsView> {
        match self {
            ContentView::Text(t) => t.annotations,
            ContentView::Image(im) => im.annotations,
        }
    }

    pub open spec fn with_annotations(self, a: Option<AnnotationsView>) -> ContentView {
        match self {
            ContentView::Text(t) => ContentView::Text(
                TextContentView { text: t.text, annotations: a },
            ),
            ContentView::Image(im) => ContentView::Image(
                ImageContentView { data: im.data, mime_type: im.mime_type, annotations: a },
            ),
        }
    }

    pub open spec fn audience(self) -> Option<Seq<Role>> {
        match self.annotations() {
            Some(a) => a.audience,
            None => None,
        }
    }

    pub open spec fn priority(self) -> Option<u32> {
        match self.annotations() {
            Some(a) => a.priority,
            None => None,
        }
    }

    /// The same content with the annotation wrapper stripped.
    pub open spec fn unannotated(self) -> ContentView {
        self.with_annotations(None)
    }

    /// The audience replaced, any existing priority preserved.
    pub open spec fn with_audience(self, roles: Seq<Role>) -> ContentView {
        let ann = match self.annotations() {
            Some(a) => AnnotationsView { audience: Some(roles), priority: a.priority },
            None => AnnotationsView { audience: Some(roles), priority: None },
        };
        self.with_annotations(Some(ann))
    }

    /// The priority replaced, any existing audience preserved.
    pub open spec fn with_priority(self, p: u32) -> ContentView {
        let ann = match self.annotations() {
            Some(a) => AnnotationsView { audience: a.audience, priority: Some(p) },
            None => AnnotationsView { audience: None, priority: Some(p) },
        };
        self.with_annotations(Some(ann))
    }

    /// Whether this unit is sent to the assistant: no audience set, or the
    /// audience names the assistant role.
    pub open spec fn visible_to_assistant(self) -> bool {
        match self.audience() {
            Some(roles) => roles.contains(Role::Assistant),
            None => true,
        }
    }
}

impl Content {
    /// A fresh text unit with no annotations.
    pub fn text(text: String) -> (r: Content)
        ensures
            r@ == ContentView::Text(TextContentView { text: text@, annotations: None }),
    {
        Content::Text(TextContent { text, annotations: None })
    }

    /// A fresh image unit with no annotations. The data is carried as an
    /// already base64-encoded string and is not validated here.
    pub fn image(data: String, mime_type: String) -> (r: Content)
        ensures
            r@ == ContentView::Image(
                ImageContentView { data: data@, mime_type: mime_type@, annotations: None },
            ),
    {
        Content::Image(ImageContent { data, mime_type, annotations: None })
    }

    /// The text if this is a text unit.
    pub fn as_text(&self) -> (r: Option<&str>)
        ensures
            match r {
                Some(s) => self@ is Text && s@ == self@->Text_0.text,
                None => !(self@ is Text),
            },
    {
        match self {
            Content::Text(t) => Some(t.text.as_str()),
            _ => None,
        }
    }

    /// The data and mime type if this is an image unit.
    pub fn as_image(&self) -> (r: Option<(&str, &str)>)
        ensures
            match r {
                Some(p) => self@ is Image && p.0@ == self@->Image_0.data && p.1@
                    == self@->Image_0.mime_type,
                None => !(self@ is Image),
            },
    {
        match self {
            Content::Image(im) => Some((im.data.as_str(), im.mime_type.as_str())),
            _ => None,
        }
    }

    /// Replace the audience, preserving any priority already set.
    pub fn with_audience(self, audience: Vec<Role>) -> (r: Content)
        ensures
            r@ == self@.with_audience(audience@),
    {
        match self {
            Content::Text(t) => {
                let ann = merge_audience(t.annotations, audience);
                Content::Text(TextContent { text: t.text, annotations: Some(ann) })
            },
            Content::Image(im) => {
                let ann = merge_audience(im.annotations, audience);
                Content::Image(
                    ImageContent { data: im.data, mime_type: im.mime_type, annotations: Some(ann) },
                )
            },
        }
    }

    /// Replace the priority, preserving any audience already set.
    /// Priorities outside the unit interval are a caller error and are
    /// excluded here rather than clamped.
    pub fn with_priority(self, priority: u32) -> (r: Content)
        requires
            priority <= PRIORITY_MAX,
        ensures
            r@ == self@.with_priority(priority),
    {
        match self {
            Content::Text(t) => {
                let ann = merge_priority(t.annotations, priority);
                Content::Text(TextContent { text: t.text, annotations: Some(ann) })
            },
            Content::Image(im) => {
                let ann = merge_priority(im.annotations, priority);
                Content::Image(
                    ImageContent { data: im.data, mime_type: im.mime_type, annotations: Some(ann) },
                )
            },
        }
    }

    /// The audience if one is set.
    pub fn audience(&self) -> (r: Option<&Vec<Role>>)
        ensures
            match r {
                Some(roles) => self@.audience() == Some(roles@),
                None => self@.audience() is None,
            },
    {
        let ann = match self {
            Content::Text(t) => &t.annotations,
            Content::Image(im) => &im.annotations,
        };
        match ann {
            Some(a) => match &a.audience {
                Some(roles) => Some(roles),
                None => None,
            },
            None => None,
        }
    }

    /// The priority if one is set.
    pub fn priority(&self) -> (r: Option<u32>)
        ensures
            r == self@.priority(),
    {
        let ann = match self {
            Content::Text(t) => &t.annotations,
            Content::Image(im) => &im.annotations,
        };
        match ann {
            Some(a) => a.priority,
            None => None,
        }
    }

    /// A structurally equal copy with the annotations stripped.
    pub fn unannotated(&self) -> (r: Content)
        ensures
            r@ == self@.unannotated(),
    {
        match self {
            Content::Text(t) => Content::Text(
                TextContent { text: t.text.clone(), annotations: None },
            ),
            Content::Image(im) => Content::Image(
                ImageContent { data: im.data.clone(), mime_type: im.mime_type.clone(), annotations: None },
            ),
        }
    }
}

fn merge_audience(ann: Option<Annotations>, audience: Vec<Role>) -> (r: Annotations)
    ensures
        r@ == (match ann.deep_view() {
            Some(a) => AnnotationsView { audience: Some(audience@), priority: a.priority },
            None => AnnotationsView { audience: Some(audience@), priority: None },
        }),
{
    match ann {
        Some(a) => Annotations { audience: Some(audience), priority: a.priority },
        None => Annotations { audience: Some(audience), priority: None },
    }
}

fn merge_priority(ann: Option<Annotations>, priority: u32) -> (r: Annotations)
    ensures
        r@ == (match ann.deep_view() {
            Some(a) => AnnotationsView { audience: a.audience, priority: Some(priority) },
            None => AnnotationsView { audience: None, priority: Some(priority) },
        }),
{
    match ann {
        Some(a) => Annotations { audience: a.audience, priority: Some(priority) },
        None => Annotations { audience: None, priority: Some(priority) },
    }
}

} // verus!
