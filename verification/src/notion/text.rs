//! Rich-text objects.
use vstd::prelude::*;

verus! {

/// A color in Notion's API.
#[derive(Debug, Clone, Copy, PartialEq, Eq, Structural)]
pub enum Color {
    Default,
    Gray,
    Brown,
    Orange,
    Yellow,
    Green,
    Blue,
    Purple,
    Pink,
    Red,
    GrayBackground,
    BrownBackground,
    OrangeBackground,
    YellowBackground,
    GreenBackground,
    BlueBackground,
    PurpleBackground,
    PinkBackground,
    RedBackground,
}

/// A link.
#[derive(Debug)]
pub struct Link {
    pub url: String,
}

/// The text of a text object and its optional link.
#[derive(Debug)]
pub struct TextContent {
    pub content: String,
    pub link: Option<Link>,
}

/// Formatting of a rich-text object.
#[derive(Debug, Clone, Copy, PartialEq, Eq, Structural)]
pub struct Annotations {
    pub bold: bool,
    pub italic: bool,
    pub strikethrough: bool,
    pub underline: bool,
    pub code: bool,
    pub color: Color,
}

impl Default for Annotations {
    /// No formatting, in the default color.
    fn default() -> (r: Annotations)
        ensures
            r == (Annotations {
                bold: false,
                italic: false,
                strikethrough: false,
                underline: false,
                code: false,
                color: Color::Default,
            }),
    {
        Annotations {
            bold: false,
            italic: false,
            strikethrough: false,
            underline: false,
            code: false,
            color: Color::Default,
        }
    }
}

/// An equation.
#[derive(Debug)]
pub struct Equation {
    pub expression: String,
}

/// A rich-text object as the API writes it.
#[derive(Debug)]
pub enum RichTextObject {
    /// Text, with its content and optional link.
    Text {
        text: TextContent,
        annotations: Option<Annotations>,
        plain_text: Option<String>,
        href: Option<String>,
    },
    /// A mention, whose details are not modelled.
    Mention { mention: (), annotations: Option<Annotations>, plain_text: Option<String>, href: Option<String> },
    /// An equation.
    Equation {
        equation: Equation,
        annotations: Option<Annotations>,
        plain_text: Option<String>,
        href: Option<String>,
    },
}

/// View of [`RichTextObject`].
pub enum SRichTextObject {
    Text {
        content: Seq<char>,
        link: Option<Seq<char>>,
        annotations: Option<Annotations>,
        plain_text: Option<Seq<char>>,
        href: Option<Seq<char>>,
    },
    Mention { annotations: Option<Annotations>, plain_text: Option<Seq<char>>, href: Option<Seq<char>> },
    Equation {
        expression: Seq<char>,
        annotations: Option<Annotations>,
        plain_text: Option<Seq<char>>,
        href: Option<Seq<char>>,
    },
}

/// The characters of an optional string.
pub open spec fn opt_chars(s: Option<String>) -> Option<Seq<char>> {
    match s {
        Some(x) => Some(x@),
        None => None,
    }
}

impl View for RichTextObject {
    type V = SRichTextObject;

    open spec fn view(&self) -> SRichTextObject {
        match self {
            RichTextObject::Text { text, annotations, plain_text, href } => SRichTextObject::Text {
                content: text.content@,
                link: match text.link {
                    Some(l) => Some(l.url@),
                    None => None,
                },
                annotations: *annotations,
                plain_text: opt_chars(*plain_text),
                href: opt_chars(*href),
            },
            RichTextObject::Mention { annotations, plain_text, href, .. } => SRichTextObject::Mention {
                annotations: *annotations,
                plain_text: opt_chars(*plain_text),
                href: opt_chars(*href),
            },
            RichTextObject::Equation { equation, annotations, plain_text, href } => SRichTextObject::Equation {
                expression: equation.expression@,
                annotations: *annotations,
                plain_text: opt_chars(*plain_text),
                href: opt_chars(*href),
            },
        }
    }
}

fn copy_string(s: &Option<String>) -> (r: Option<String>)
    ensures
        opt_chars(r) == opt_chars(*s),
{
    match s {
        Some(x) => Some(x.clone()),
        None => None,
    }
}

/// Objects that can make a copy of themselves.
pub trait CloneTextObject: Sized + View {
    /// A copy of this object.
    fn duplicate(&self) -> (r: Self)
        ensures
            r@ == self@,
    ;
}

impl CloneTextObject for RichTextObject {
    fn duplicate(&self) -> (r: Self) {
        match self {
            RichTextObject::Text { text, annotations, plain_text, href } => RichTextObject::Text {
                text: TextContent {
                    content: text.content.clone(),
                    link: match &text.link {
                        Some(l) => Some(Link { url: l.url.clone() }),
                        None => None,
                    },
                },
                annotations: *annotations,
                plain_text: copy_string(plain_text),
                href: copy_string(href),
            },
            RichTextObject::Mention { annotations, plain_text, href, .. } => RichTextObject::Mention {
                mention: (),
                annotations: *annotations,
                plain_text: copy_string(plain_text),
                href: copy_string(href),
            },
            RichTextObject::Equation { equation, annotations, plain_text, href } => RichTextObject::Equation {
                equation: Equation { expression: equation.expression.clone() },
                annotations: *annotations,
                plain_text: copy_string(plain_text),
                href: copy_string(href),
            },
        }
    }
}

/// A text object holding `content`, with no link, formatting, plain text or
/// reference.
pub fn create_text(content: &str) -> (r: RichTextObject)
    ensures
        r@ == (SRichTextObject::Text {
            content: content@,
            link: None,
            annotations: None,
            plain_text: None,
            href: None,
        }),
{
    RichTextObject::Text {
        text: TextContent { content: String::from_str(content), link: None },
        annotations: None,
        plain_text: None,
        href: None,
    }
}

/// A text object holding `content` with the given formatting and optional
/// link.
pub fn create_formatted_text(content: &str, annotations: Annotations, link: Option<String>) -> (r: RichTextObject)
    ensures
        r@ == (SRichTextObject::Text {
            content: content@,
            link: opt_chars(link),
            annotations: Some(annotations),
            plain_text: None,
            href: None,
        }),
{
    RichTextObject::Text {
        text: TextContent {
            content: String::from_str(content),
            link: match link {
                Some(url) => Some(Link { url }),
                None => None,
            },
        },
        annotations: Some(annotations),
        plain_text: None,
        href: None,
    }
}

/// An equation object with the given expression.
pub fn create_equation(expression: &str) -> (r: RichTextObject)
    ensures
        r@ == (SRichTextObject::Equation {
            expression: expression@,
            annotations: None,
            plain_text: None,
            href: None,
        }),
{
    RichTextObject::Equation {
        equation: Equation { expression: String::from_str(expression) },
        annotations: None,
        plain_text: None,
        href: None,
    }
}

} // verus!
