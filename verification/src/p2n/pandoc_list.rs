//! Conversion of Pandoc lists into Notion list items.
//!
//! Each item of a Pandoc list becomes one Notion item: a to-do item when its
//! first block starts with a ballot box (`☐` or `☒`), else a bulleted or
//! numbered item.  The item's later blocks that are lists become its
//! children.
use crate::notion_api::{
    children_view, notion_blocks_view, rich_texts_view, BlockType, BulletedListItemValue,
    NotionBlock, NumberedListItemValue, RichText, SBlockType, SNotionBlock, SRichText, SToDoValue,
    STextValue, TextColor, ToDoValue,
};
use crate::p2n::pandoc_paragraph::has_some_children;
use crate::p2n::pandoc_text::{spec_convert_inlines, unsupported_with, ConversionError, PandocTextConverter};
use crate::p2n::{make_block, new_block};
use crate::pandoc::{blocks_view, inlines_view, items_view, Block, Inline, ListAttributes, SBlock, SInline};
use crate::strings::str_eq;
use vstd::prelude::*;

verus! {

broadcast use {
    vstd::std_specs::vec::group_vec_axioms,
    crate::pandoc::group_pandoc_view,
    crate::notion_api::lemma_notion_blocks_view,
};

/// View of [`NotionBulletedListBuilder`] and [`NotionNumberedListBuilder`].
pub struct SListItemBuilder {
    pub rich_text: Seq<SRichText>,
    pub color: Option<TextColor>,
    pub children: Option<Seq<SNotionBlock>>,
}

/// The color of a built item: the one set, the default color otherwise.
pub open spec fn color_or_default(c: Option<TextColor>) -> TextColor {
    match c {
        Some(x) => x,
        None => TextColor::Default,
    }
}

/// The Notion bulleted item that a builder in the state `b` builds.
pub open spec fn spec_bulleted_block(b: SListItemBuilder) -> SNotionBlock {
    new_block(
        None,
        None,
        has_some_children(b.children),
        SBlockType::BulletedListItem(
            STextValue { rich_text: b.rich_text, color: Some(color_or_default(b.color)), children: b.children },
        ),
    )
}

/// The Notion numbered item that a builder in the state `b` builds.
pub open spec fn spec_numbered_block(b: SListItemBuilder) -> SNotionBlock {
    new_block(
        None,
        None,
        has_some_children(b.children),
        SBlockType::NumberedListItem(
            STextValue { rich_text: b.rich_text, color: Some(color_or_default(b.color)), children: b.children },
        ),
    )
}

/// Builds a Notion bulleted list item block.
pub struct NotionBulletedListBuilder {
    rich_text: Vec<RichText>,
    color: Option<TextColor>,
    children: Option<Vec<NotionBlock>>,
}

impl View for NotionBulletedListBuilder {
    type V = SListItemBuilder;

    closed spec fn view(&self) -> SListItemBuilder {
        SListItemBuilder {
            rich_text: rich_texts_view(self.rich_text@),
            color: self.color,
            children: children_view(self.children),
        }
    }
}

impl NotionBulletedListBuilder {
    /// A builder with no text, no color and no children.
    pub fn new() -> (r: Self)
        ensures
            r@ == (SListItemBuilder { rich_text: Seq::empty(), color: None, children: None }),
    {
        let r = NotionBulletedListBuilder { rich_text: Vec::new(), color: None, children: None };
        assert(r@.rich_text =~= Seq::<SRichText>::empty());
        r
    }

    /// Sets the text.
    pub fn rich_text(self, rich_text: Vec<RichText>) -> (r: Self)
        ensures
            r@ == (SListItemBuilder { rich_text: rich_texts_view(rich_text@), ..self@ }),
    {
        NotionBulletedListBuilder { rich_text, ..self }
    }

    /// Appends a rich-text object to the text.
    pub fn add_rich_text(self, text: RichText) -> (r: Self)
        ensures
            r@ == (SListItemBuilder { rich_text: self@.rich_text.push(text@), ..self@ }),
    {
        let mut s = self;
        let ghost before = s.rich_text@;
        s.rich_text.push(text);
        assert(rich_texts_view(s.rich_text@) =~= rich_texts_view(before).push(text@));
        s
    }

    /// Sets the color.
    pub fn color(self, color: TextColor) -> (r: Self)
        ensures
            r@ == (SListItemBuilder { color: Some(color), ..self@ }),
    {
        NotionBulletedListBuilder { color: Some(color), ..self }
    }

    /// Sets the children, unless there are none.
    pub fn children(self, children: Vec<NotionBlock>) -> (r: Self)
        ensures
            r@ == (if children@.len() > 0 {
                SListItemBuilder { children: Some(notion_blocks_view(children@)), ..self@ }
            } else {
                self@
            }),
    {
        if children.len() > 0 {
            NotionBulletedListBuilder { children: Some(children), ..self }
        } else {
            self
        }
    }

    /// The Notion bulleted list item, in the default color when none was set, flagged
    /// as having children when it has some.
    pub fn build(self) -> (r: NotionBlock)
        ensures
            r@ == spec_bulleted_block(self@),
    {
        let has_children = match &self.children {
            Some(c) => c.len() > 0,
            None => false,
        };
        let color = match self.color {
            Some(c) => c,
            None => TextColor::Default,
        };
        let value = BulletedListItemValue { rich_text: self.rich_text, color, children: self.children };
        make_block(None, None, has_children, BlockType::BulletedListItem { bulleted_list_item: value })
    }
}

/// Builds a Notion numbered list item block.
pub struct NotionNumberedListBuilder {
    rich_text: Vec<RichText>,
    color: Option<TextColor>,
    children: Option<Vec<NotionBlock>>,
}

impl View for NotionNumberedListBuilder {
    type V = SListItemBuilder;

    closed spec fn view(&self) -> SListItemBuilder {
        SListItemBuilder {
            rich_text: rich_texts_view(self.rich_text@),
            color: self.color,
            children: children_view(self.children),
        }
    }
}

impl NotionNumberedListBuilder {
    /// A builder with no text, no color and no children.
    pub fn new() -> (r: Self)
        ensures
            r@ == (SListItemBuilder { rich_text: Seq::empty(), color: None, children: None }),
    {
        let r = NotionNumberedListBuilder { rich_text: Vec::new(), color: None, children: None };
        assert(r@.rich_text =~= Seq::<SRichText>::empty());
        r
    }

    /// Sets the text.
    pub fn rich_text(self, rich_text: Vec<RichText>) -> (r: Self)
        ensures
            r@ == (SListItemBuilder { rich_text: rich_texts_view(rich_text@), ..self@ }),
    {
        NotionNumberedListBuilder { rich_text, ..self }
    }

    /// Appends a rich-text object to the text.
    pub fn add_rich_text(self, text: RichText) -> (r: Self)
        ensures
            r@ == (SListItemBuilder { rich_text: self@.rich_text.push(text@), ..self@ }),
    {
        let mut s = self;
        let ghost before = s.rich_text@;
        s.rich_text.push(text);
        assert(rich_texts_view(s.rich_text@) =~= rich_texts_view(before).push(text@));
        s
    }

    /// Sets the color.
    pub fn color(self, color: TextColor) -> (r: Self)
        ensures
            r@ == (SListItemBuilder { color: Some(color), ..self@ }),
    {
        NotionNumberedListBuilder { color: Some(color), ..self }
    }

    /// Sets the children, unless there are none.
    pub fn children(self, children: Vec<NotionBlock>) -> (r: Self)
        ensures
            r@ == (if children@.len() > 0 {
                SListItemBuilder { children: Some(notion_blocks_view(children@)), ..self@ }
            } else {
                self@
            }),
    {
        if children.len() > 0 {
            NotionNumberedListBuilder { children: Some(children), ..self }
        } else {
            self
        }
    }

    /// The Notion numbered list item, in the default color when none was set, flagged
    /// as having children when it has some.
    pub fn build(self) -> (r: NotionBlock)
        ensures
            r@ == spec_numbered_block(self@),
    {
        let has_children = match &self.children {
            Some(c) => c.len() > 0,
            None => false,
        };
        let color = match self.color {
            Some(c) => c,
            None => TextColor::Default,
        };
        let value = NumberedListItemValue { rich_text: self.rich_text, color, children: self.children };
        make_block(None, None, has_children, BlockType::NumberedListItem { numbered_list_item: value })
    }
}

/// View of [`NotionTodoListBuilder`].
pub struct STodoBuilder {
    pub rich_text: Seq<SRichText>,
    pub color: Option<TextColor>,
    pub checked: Option<bool>,
    pub children: Option<Seq<SNotionBlock>>,
}

/// The Notion to-do item that a builder in the state `b` builds: unchecked
/// and in the default color unless set otherwise.
pub open spec fn spec_todo_block(b: STodoBuilder) -> SNotionBlock {
    new_block(
        None,
        None,
        has_some_children(b.children),
        SBlockType::ToDo(
            SToDoValue {
                rich_text: b.rich_text,
                checked: Some(
                    match b.checked {
                        Some(c) => c,
                        None => false,
                    },
                ),
                color: Some(color_or_default(b.color)),
                children: b.children,
            },
        ),
    )
}

/// Builds a Notion to-do block.
pub struct NotionTodoListBuilder {
    rich_text: Vec<RichText>,
    color: Option<TextColor>,
    checked: Option<bool>,
    children: Option<Vec<NotionBlock>>,
}

impl View for NotionTodoListBuilder {
    type V = STodoBuilder;

    closed spec fn view(&self) -> STodoBuilder {
        STodoBuilder {
            rich_text: rich_texts_view(self.rich_text@),
            color: self.color,
            checked: self.checked,
            children: children_view(self.children),
        }
    }
}

impl NotionTodoListBuilder {
    /// A builder with no text, color, check mark or children.
    pub fn new() -> (r: Self)
        ensures
            r@ == (STodoBuilder { rich_text: Seq::empty(), color: None, checked: None, children: None }),
    {
        let r = NotionTodoListBuilder { rich_text: Vec::new(), color: None, checked: None, children: None };
        assert(r@.rich_text =~= Seq::<SRichText>::empty());
        r
    }

    /// Sets the text.
    pub fn rich_text(self, rich_text: Vec<RichText>) -> (r: Self)
        ensures
            r@ == (STodoBuilder { rich_text: rich_texts_view(rich_text@), ..self@ }),
    {
        NotionTodoListBuilder { rich_text, ..self }
    }

    /// Appends a rich-text object to the text.
    pub fn add_rich_text(self, text: RichText) -> (r: Self)
        ensures
            r@ == (STodoBuilder { rich_text: self@.rich_text.push(text@), ..self@ }),
    {
        let mut s = self;
        let ghost before = s.rich_text@;
        s.rich_text.push(text);
        assert(rich_texts_view(s.rich_text@) =~= rich_texts_view(before).push(text@));
        s
    }

    /// Sets the color.
    pub fn color(self, color: TextColor) -> (r: Self)
        ensures
            r@ == (STodoBuilder { color: Some(color), ..self@ }),
    {
        NotionTodoListBuilder { color: Some(color), ..self }
    }

    /// Sets whether the item is checked.
    pub fn with_checked(self, checked: bool) -> (r: Self)
        ensures
            r@ == (STodoBuilder { checked: Some(checked), ..self@ }),
    {
        NotionTodoListBuilder { checked: Some(checked), ..self }
    }

    /// Sets the children, unless there are none.
    pub fn children(self, children: Vec<NotionBlock>) -> (r: Self)
        ensures
            r@ == (if children@.len() > 0 {
                STodoBuilder { children: Some(notion_blocks_view(children@)), ..self@ }
            } else {
                self@
            }),
    {
        if children.len() > 0 {
            NotionTodoListBuilder { children: Some(children), ..self }
        } else {
            self
        }
    }

    /// The Notion to-do item.
    pub fn build(self) -> (r: NotionBlock)
        ensures
            r@ == spec_todo_block(self@),
    {
        let checked = match self.checked {
            Some(c) => c,
            None => false,
        };
        let has_children = match &self.children {
            Some(c) => c.len() > 0,
            None => false,
        };
        let color = match self.color {
            Some(c) => c,
            None => TextColor::Default,
        };
        let to_do = ToDoValue {
            rich_text: self.rich_text,
            checked: Some(checked),
            color: Some(color),
            children: self.children,
        };
        make_block(None, None, has_children, BlockType::ToDo { to_do })
    }
}

/// The rich text of a list item's first block: that of its inlines when it
/// is a paragraph or plain text, nothing otherwise; or the conversion error.
pub open spec fn spec_item_text(first: SBlock) -> Result<Seq<SRichText>, Seq<char>> {
    match first {
        SBlock::Plain(inl) => spec_convert_inlines(inl),
        SBlock::Para(inl) => spec_convert_inlines(inl),
        _ => Ok(Seq::empty()),
    }
}

/// The inlines of a paragraph or plain text block.
pub open spec fn block_inlines(b: SBlock) -> Option<Seq<SInline>> {
    match b {
        SBlock::Plain(inl) => Some(inl),
        SBlock::Para(inl) => Some(inl),
        _ => None,
    }
}

/// Whether inlines start with a ballot box, `☐` (unchecked) or `☒`
/// (checked).
pub open spec fn starts_with_checkbox(inl: Seq<SInline>) -> bool {
    inl.len() > 0 && inl[0] is Str && (inl[0]->Str_0 == "☐"@ || inl[0]->Str_0 == "☒"@)
}

/// The inlines of a to-do item after its ballot box and the space after it;
/// all the inlines when the box is the only one.
pub open spec fn todo_content(inl: Seq<SInline>) -> Seq<SInline> {
    if inl.len() >= 2 {
        if inl[1] is Space {
            inl.skip(2)
        } else {
            inl.skip(1)
        }
    } else {
        inl
    }
}

/// The to-do item that a list item's first block stands for, when its
/// inlines start with a ballot box: checked for `☒`, with the rich text of
/// the inlines after the box.  `None` when it is no to-do item; or the
/// conversion error.
pub open spec fn spec_try_todo(first: SBlock) -> Result<Option<SNotionBlock>, Seq<char>> {
    match block_inlines(first) {
        Some(inl) => if starts_with_checkbox(inl) {
            match spec_convert_inlines(todo_content(inl)) {
                Ok(rts) => Ok(
                    Some(
                        spec_todo_block(
                            STodoBuilder {
                                rich_text: rts,
                                color: None,
                                checked: Some(inl[0]->Str_0 == "☒"@),
                                children: None,
                            },
                        ),
                    ),
                ),
                Err(d) => Err(d),
            }
        } else {
            Ok(None)
        },
        None => Ok(None),
    }
}

/// A list item with the given children: rebuilt with them when it is a
/// bulleted, numbered or to-do item and there are some, unchanged otherwise.
pub open spec fn spec_add_children(b: SNotionBlock, children: Seq<SNotionBlock>) -> SNotionBlock {
    if children.len() == 0 {
        b
    } else {
        match b.block_type {
            SBlockType::BulletedListItem(v) => spec_bulleted_block(
                SListItemBuilder { rich_text: v.rich_text, color: v.color, children: Some(children) },
            ),
            SBlockType::NumberedListItem(v) => spec_numbered_block(
                SListItemBuilder { rich_text: v.rich_text, color: v.color, children: Some(children) },
            ),
            SBlockType::ToDo(v) => spec_todo_block(
                STodoBuilder {
                    rich_text: v.rich_text,
                    color: v.color,
                    checked: Some(
                        match v.checked {
                            Some(c) => c,
                            None => false,
                        },
                    ),
                    children: Some(children),
                },
            ),
            _ => b,
        }
    }
}

/// The Notion items made from a Pandoc block: one per non-empty item of a
/// bullet or ordered list, nothing for any other block; or the first
/// conversion error.
pub open spec fn spec_list_convert(b: SBlock) -> Result<Seq<SNotionBlock>, Seq<char>>
    decreases b,
{
    match b {
        SBlock::BulletList(items) => spec_list_items(items, false),
        SBlock::OrderedList(_, items) => spec_list_items(items, true),
        _ => Ok(Seq::empty()),
    }
}

/// The Notion items made from list items, in order.
pub open spec fn spec_list_items(items: Seq<Seq<SBlock>>, ordered: bool) -> Result<Seq<SNotionBlock>, Seq<char>>
    decreases items,
{
    if items.len() == 0 {
        Ok(Seq::empty())
    } else {
        match spec_list_items(items.drop_last(), ordered) {
            Ok(done) => match spec_list_item(items.last(), ordered) {
                Ok(more) => Ok(done + more),
                Err(d) => Err(d),
            },
            Err(d) => Err(d),
        }
    }
}

/// The Notion item made from one list item (nothing for an empty item): the
/// to-do item its first block stands for, or else a bulleted (numbered, in
/// an ordered list) item with the first block's rich text; with the items
/// made from its later blocks as children.
pub open spec fn spec_list_item(item: Seq<SBlock>, ordered: bool) -> Result<Seq<SNotionBlock>, Seq<char>>
    decreases item,
{
    if item.len() == 0 {
        Ok(Seq::empty())
    } else {
        match spec_nested_items(item.skip(1)) {
            Ok(children) => match spec_try_todo(item[0]) {
                Ok(Some(t)) => Ok(seq![spec_add_children(t, children)]),
                Ok(None) => match spec_item_text(item[0]) {
                    Ok(rts) => Ok(
                        seq![
                            spec_add_children(
                                if ordered {
                                    spec_numbered_block(
                                        SListItemBuilder { rich_text: rts, color: None, children: None },
                                    )
                                } else {
                                    spec_bulleted_block(
                                        SListItemBuilder { rich_text: rts, color: None, children: None },
                                    )
                                },
                                children,
                            ),
                        ],
                    ),
                    Err(d) => Err(d),
                },
                Err(d) => Err(d),
            },
            Err(d) => Err(d),
        }
    }
}

/// The Notion items made from the later blocks of a list item, in order.
pub open spec fn spec_nested_items(bs: Seq<SBlock>) -> Result<Seq<SNotionBlock>, Seq<char>>
    decreases bs,
{
    if bs.len() == 0 {
        Ok(Seq::empty())
    } else {
        match spec_nested_items(bs.drop_last()) {
            Ok(done) => match spec_list_convert(bs.last()) {
                Ok(more) => Ok(done + more),
                Err(d) => Err(d),
            },
            Err(d) => Err(d),
        }
    }
}

/// The inlines of a paragraph or plain text block.
fn inlines_of(b: &Block) -> (r: Option<&Vec<Inline>>)
    ensures
        match block_inlines(b@) {
            Some(inl) => r is Some && inlines_view(r->0@) == inl,
            None => r is None,
        },
{
    match b {
        Block::Plain(inl) => Some(inl),
        Block::Para(inl) => Some(inl),
        _ => None,
    }
}

/// Converts Pandoc lists into Notion list items.
pub struct PandocListConverter {
    text_converter: PandocTextConverter,
}

impl PandocListConverter {
    /// A list converter.
    pub fn new() -> (r: Self) {
        PandocListConverter { text_converter: PandocTextConverter::new() }
    }

    fn item_text(&self, first_block: &Block) -> (r: Result<Vec<RichText>, ConversionError>)
        ensures
            match spec_item_text(first_block@) {
                Ok(rts) => r is Ok && rich_texts_view(r->Ok_0@) == rts,
                Err(d) => r is Err && unsupported_with(r->Err_0, d),
            },
    {
        match inlines_of(first_block) {
            Some(inlines) => self.text_converter.convert(inlines.as_slice()),
            None => {
                let v: Vec<RichText> = Vec::new();
                assert(rich_texts_view(v@) =~= Seq::<SRichText>::empty());
                Ok(v)
            },
        }
    }

    /// A bulleted item with the rich text of a list item's first block.
    pub fn convert_bullet_list_item(&self, first_block: &Block) -> (r: Result<NotionBlock, ConversionError>)
        ensures
            match spec_item_text(first_block@) {
                Ok(rts) => r is Ok && r->Ok_0@ == spec_bulleted_block(
                    SListItemBuilder { rich_text: rts, color: None, children: None },
                ),
                Err(d) => r is Err && unsupported_with(r->Err_0, d),
            },
    {
        match self.item_text(first_block) {
            Ok(rich_text) => Ok(NotionBulletedListBuilder::new().rich_text(rich_text).build()),
            Err(e) => Err(e),
        }
    }

    /// A numbered item with the rich text of a list item's first block.  The
    /// list's attributes are not used.
    pub fn convert_ordered_list_item(&self, first_block: &Block, attrs: &ListAttributes) -> (r: Result<NotionBlock, ConversionError>)
        ensures
            match spec_item_text(first_block@) {
                Ok(rts) => r is Ok && r->Ok_0@ == spec_numbered_block(
                    SListItemBuilder { rich_text: rts, color: None, children: None },
                ),
                Err(d) => r is Err && unsupported_with(r->Err_0, d),
            },
    {
        match self.item_text(first_block) {
            Ok(rich_text) => Ok(NotionNumberedListBuilder::new().rich_text(rich_text).build()),
            Err(e) => Err(e),
        }
    }

    /// The to-do item that a list item's first block stands for (see
    /// [`spec_try_todo`]).
    pub fn try_convert_todo_item(&self, first_block: &Block) -> (r: Result<Option<NotionBlock>, ConversionError>)
        ensures
            match spec_try_todo(first_block@) {
                Ok(Some(t)) => r is Ok && r->Ok_0 is Some && r->Ok_0->0@ == t,
                Ok(None) => r is Ok && r->Ok_0 is None,
                Err(d) => r is Err && unsupported_with(r->Err_0, d),
            },
    {
        let inlines = match inlines_of(first_block) {
            Some(inl) => inl,
            None => {
                return Ok(None);
            },
        };
        let ghost iv = inlines_view(inlines@);
        if inlines.len() == 0 {
            return Ok(None);
        }
        proof {
            crate::pandoc::lemma_inlines_view(inlines@);
        }
        let checkbox = match &inlines[0] {
            Inline::Str(s) => s.as_str(),
            _ => {
                return Ok(None);
            },
        };
        let is_unchecked = str_eq(checkbox, "☐");
        let checked = str_eq(checkbox, "☒");
        if !(is_unchecked || checked) {
            return Ok(None);
        }
        let content: &[Inline] = if inlines.len() >= 2 {
            let skip: usize = match &inlines[1] {
                Inline::Space => 2,
                _ => 1,
            };
            let (_, rest) = inlines.as_slice().split_at(skip);
            assert(inlines_view(rest@) =~= iv.skip(skip as int));
            rest
        } else {
            inlines.as_slice()
        };
        assert(inlines_view(content@) == todo_content(iv));
        match self.text_converter.convert(content) {
            Ok(rich_text) => Ok(
                Some(NotionTodoListBuilder::new().rich_text(rich_text).with_checked(checked).build()),
            ),
            Err(e) => Err(e),
        }
    }

    /// The to-do item that a list item stands for, judged by its first block;
    /// `None` for an empty item.
    pub fn process_potential_todo_item(&self, item: &[Block]) -> (r: Result<Option<NotionBlock>, ConversionError>)
        ensures
            item@.len() == 0 ==> r is Ok && r->Ok_0 is None,
            item@.len() > 0 ==> match spec_try_todo(item@[0]@) {
                Ok(Some(t)) => r is Ok && r->Ok_0 is Some && r->Ok_0->0@ == t,
                Ok(None) => r is Ok && r->Ok_0 is None,
                Err(d) => r is Err && unsupported_with(r->Err_0, d),
            },
    {
        if item.len() > 0 {
            return self.try_convert_todo_item(&item[0]);
        }
        Ok(None)
    }

    /// The Notion items made from a Pandoc list (see [`spec_list_convert`]);
    /// nothing for any other block.
    pub fn convert(&self, block: &Block) -> (r: Result<Vec<NotionBlock>, ConversionError>)
        ensures
            match spec_list_convert(block@) {
                Ok(bs) => r is Ok && notion_blocks_view(r->Ok_0@) == bs,
                Err(d) => r is Err && unsupported_with(r->Err_0, d),
            },
        decreases *block,
    {
        match block {
            Block::BulletList(items) => self.convert_items(items, false),
            Block::OrderedList(_, items) => self.convert_items(items, true),
            _ => {
                let v: Vec<NotionBlock> = Vec::new();
                assert(notion_blocks_view(v@) =~= Seq::<SNotionBlock>::empty());
                Ok(v)
            },
        }
    }

    fn convert_items(&self, items: &Vec<Vec<Block>>, ordered: bool) -> (r: Result<Vec<NotionBlock>, ConversionError>)
        ensures
            match spec_list_items(items_view(items@), ordered) {
                Ok(bs) => r is Ok && notion_blocks_view(r->Ok_0@) == bs,
                Err(d) => r is Err && unsupported_with(r->Err_0, d),
            },
        decreases *items,
    {
        let ghost iv = items_view(items@);
        let mut result: Vec<NotionBlock> = Vec::new();
        let n = items.len();
        assert(notion_blocks_view(result@) =~= Seq::<SNotionBlock>::empty());
        for i in 0..n
            invariant
                n == items@.len(),
                iv == items_view(items@),
                spec_list_items(iv.take(i as int), ordered) == Ok::<Seq<SNotionBlock>, Seq<char>>(
                    notion_blocks_view(result@),
                ),
        {
            proof {
                crate::pandoc::lemma_items_view(items@);
                assert(iv.take(i + 1).drop_last() =~= iv.take(i as int));
                assert(iv.take(i + 1).last() == blocks_view(items@[i as int]@));
            }
            assert(decreases_to!(items => items@[i as int]));
            match self.convert_item(&items[i], ordered) {
                Ok(more) => {
                    let ghost a = result@;
                    let ghost b = more@;
                    let mut more = more;
                    result.append(&mut more);
                    proof {
                        crate::notion_api::lemma_notion_blocks_view_add(a, b);
                    }
                },
                Err(e) => {
                    proof {
                        lemma_items_error_propagates(iv, ordered, i + 1);
                    }
                    return Err(e);
                },
            }
        }
        assert(iv.take(n as int) =~= iv);
        Ok(result)
    }

    fn convert_item(&self, item: &Vec<Block>, ordered: bool) -> (r: Result<Vec<NotionBlock>, ConversionError>)
        ensures
            match spec_list_item(blocks_view(item@), ordered) {
                Ok(bs) => r is Ok && notion_blocks_view(r->Ok_0@) == bs,
                Err(d) => r is Err && unsupported_with(r->Err_0, d),
            },
        decreases *item,
    {
        let ghost bv = blocks_view(item@);
        if item.len() == 0 {
            let v: Vec<NotionBlock> = Vec::new();
            assert(notion_blocks_view(v@) =~= Seq::<SNotionBlock>::empty());
            return Ok(v);
        }
        proof {
            crate::pandoc::lemma_blocks_view(item@);
        }
        let ghost rest = bv.skip(1);
        let mut children: Vec<NotionBlock> = Vec::new();
        let n = item.len();
        let mut j: usize = 1;
        assert(rest.take(0) =~= Seq::<SBlock>::empty());
        assert(notion_blocks_view(children@) =~= Seq::<SNotionBlock>::empty());
        while j < n
            invariant
                1 <= j <= n,
                n == item@.len(),
                bv == blocks_view(item@),
                rest == bv.skip(1),
                spec_nested_items(rest.take(j - 1)) == Ok::<Seq<SNotionBlock>, Seq<char>>(
                    notion_blocks_view(children@),
                ),
            decreases n - j,
        {
            proof {
                crate::pandoc::lemma_blocks_view(item@);
                assert(rest.take(j as int).drop_last() =~= rest.take(j - 1));
                assert(rest.take(j as int).last() == item@[j as int]@);
            }
            assert(decreases_to!(item => item@[j as int]));
            match self.convert(&item[j]) {
                Ok(more) => {
                    let ghost a = children@;
                    let ghost b = more@;
                    let mut more = more;
                    children.append(&mut more);
                    proof {
                        crate::notion_api::lemma_notion_blocks_view_add(a, b);
                    }
                },
                Err(e) => {
                    proof {
                        lemma_nested_error_propagates(rest, j as int);
                    }
                    return Err(e);
                },
            }
            j = j + 1;
        }
        assert(rest.take(n - 1) =~= rest);
        let first_block = &item[0];
        let converted = match self.try_convert_todo_item(first_block) {
            Ok(Some(todo)) => todo,
            Ok(None) => {
                let b = if ordered {
                    self.convert_ordered_list_item(
                        first_block,
                        &ListAttributes {
                            start_number: 1,
                            style: crate::pandoc::ListNumberStyle::DefaultStyle,
                            delim: crate::pandoc::ListNumberDelim::DefaultDelim,
                        },
                    )
                } else {
                    self.convert_bullet_list_item(first_block)
                };
                match b {
                    Ok(b) => b,
                    Err(e) => {
                        return Err(e);
                    },
                }
            },
            Err(e) => {
                return Err(e);
            },
        };
        let with_children = match self.add_children_to_block(converted, children) {
            Ok(b) => b,
            Err(e) => {
                return Err(e);
            },
        };
        let mut v = Vec::new();
        v.push(with_children);
        assert(notion_blocks_view(v@) =~= seq![v@[0]@]);
        Ok(v)
    }

    /// The first block of a list item, if it has one.
    pub fn extract_first_block<'a>(&self, item: &'a [Block]) -> (r: Option<&'a Block>)
        ensures
            item@.len() == 0 ==> r is None,
            item@.len() > 0 ==> r == Some(&item@[0]),
    {
        item.first()
    }

    /// The blocks of a list item after its first one.
    pub fn extract_nested_blocks<'a>(&self, item: &'a [Block]) -> (r: Vec<&'a Block>)
        ensures
            item@.len() <= 1 ==> r@.len() == 0,
            item@.len() > 1 ==> r@.len() == item@.len() - 1,
            forall|k: int| 0 <= k < r@.len() ==> *r@[k] == item@[k + 1],
    {
        let mut r: Vec<&'a Block> = Vec::new();
        if item.len() <= 1 {
            return r;
        }
        let n = item.len();
        for i in 1..n
            invariant
                n == item@.len(),
                r@.len() == i - 1,
                forall|k: int| 0 <= k < r@.len() ==> *r@[k] == item@[k + 1],
        {
            r.push(&item[i]);
        }
        r
    }

    /// A list item with the given children (see [`spec_add_children`]).
    pub fn add_children_to_block(&self, block: NotionBlock, children: Vec<NotionBlock>) -> (r: Result<NotionBlock, ConversionError>)
        ensures
            r is Ok,
            r->Ok_0@ == spec_add_children(block@, notion_blocks_view(children@)),
    {
        if children.len() == 0 {
            return Ok(block);
        }
        let ghost bv = block@;
        match block.block_type {
            BlockType::BulletedListItem { bulleted_list_item } => Ok(
                NotionBulletedListBuilder::new().rich_text(bulleted_list_item.rich_text).children(
                    children,
                ).color(bulleted_list_item.color).build(),
            ),
            BlockType::NumberedListItem { numbered_list_item } => Ok(
                NotionNumberedListBuilder::new().rich_text(numbered_list_item.rich_text).children(
                    children,
                ).color(numbered_list_item.color).build(),
            ),
            BlockType::ToDo { to_do } => {
                let checked = match to_do.checked {
                    Some(c) => c,
                    None => false,
                };
                let mut builder = NotionTodoListBuilder::new().rich_text(to_do.rich_text).with_checked(
                    checked,
                ).children(children);
                match to_do.color {
                    Some(c) => {
                        builder = builder.color(c);
                    },
                    None => {},
                }
                Ok(builder.build())
            },
            other => Ok(
                NotionBlock {
                    object: block.object,
                    id: block.id,
                    parent: block.parent,
                    archived: block.archived,
                    has_children: block.has_children,
                    block_type: other,
                },
            ),
        }
    }
}

/// Once a list item fails to convert, the conversion of the list fails the
/// same way.
proof fn lemma_items_error_propagates(items: Seq<Seq<SBlock>>, ordered: bool, k: int)
    requires
        0 <= k <= items.len(),
        spec_list_items(items.take(k), ordered) is Err,
    ensures
        spec_list_items(items, ordered) == spec_list_items(items.take(k), ordered),
    decreases items.len(),
{
    if k == items.len() {
        assert(items.take(k) =~= items);
    } else {
        let d = items.drop_last();
        assert(d.take(k) =~= items.take(k));
        lemma_items_error_propagates(d, ordered, k);
    }
}

/// Once a later block of a list item fails to convert, the conversion of
/// all of them fails the same way.
proof fn lemma_nested_error_propagates(bs: Seq<SBlock>, k: int)
    requires
        0 <= k <= bs.len(),
        spec_nested_items(bs.take(k)) is Err,
    ensures
        spec_nested_items(bs) == spec_nested_items(bs.take(k)),
    decreases bs.len(),
{
    if k == bs.len() {
        assert(bs.take(k) =~= bs);
    } else {
        let d = bs.drop_last();
        assert(d.take(k) =~= bs.take(k));
        lemma_nested_error_propagates(d, k);
    }
}

/// Attaching children to a to-do item keeps it a to-do item with the same
/// text and the same checked state (an unset state reads as unchecked), and
/// the item then holds exactly those children.
pub proof fn law_todo_children_keep_checked(b: SNotionBlock, cs: Seq<SNotionBlock>)
    requires
        b.block_type is ToDo,
    ensures
        spec_add_children(b, cs).block_type matches SBlockType::ToDo(w) && w.rich_text
            == b.block_type->ToDo_0.rich_text && ((w.checked == Some(true)) <==> (
        b.block_type->ToDo_0.checked == Some(true))) && (cs.len() > 0 ==> w.children == Some(cs)
            && spec_add_children(b, cs).has_children == Some(true)),
{
}

} // verus!
