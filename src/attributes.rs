//! Field attributes of an asset collection, and their resolution into one
//! loading strategy per field.
//!
//! The attributes come as plain values: the attribute's name and its items,
//! each a word (`folder`), a named literal (`path = "x.png"`), or a list
//! (`texture_atlas(columns = 4)`). Errors are accumulated, never fail-fast.
use vstd::prelude::*;

verus! {

/// A literal as written in an attribute; numbers keep their source text.
#[derive(Clone, Debug, PartialEq, Eq)]
pub enum Literal {
    Str(String),
    Float(String),
    Int(String),
    Other,
}

/// An item inside a list item, such as `columns = 4` in `texture_atlas(..)`.
#[derive(Clone, Debug, PartialEq, Eq)]
pub enum NestedItem {
    Word(String),
    NameValue(String, Literal),
    /// A nested list or a bare literal.
    Other,
}

/// An item of an `asset(..)` attribute.
#[derive(Clone, Debug, PartialEq, Eq)]
pub enum AttributeItem {
    Word(String),
    NameValue(String, Literal),
    List(String, Vec<NestedItem>),
    /// A bare literal.
    Other,
}

/// A list-form attribute of a field: `#[name(items)]`.
#[derive(Clone, Debug, PartialEq, Eq)]
pub struct Attribute {
    pub name: String,
    pub items: Vec<AttributeItem>,
}

/// A named field of a collection with its list-form attributes.
#[derive(Clone, Debug, PartialEq, Eq)]
pub struct FieldDecl {
    pub name: String,
    pub attributes: Vec<Attribute>,
}

/// Where an offending item stands: the index of the attribute in the field,
/// of the item in the attribute, and of the nested item in a list item.
#[derive(Clone, Copy, Debug, PartialEq, Eq, Structural)]
pub struct ItemPos {
    pub attribute: usize,
    pub item: usize,
    pub nested: Option<usize>,
}

/// The literal type an attribute expects.
#[derive(Clone, Copy, Debug, PartialEq, Eq, Structural)]
pub enum LiteralKind {
    Str,
    Float,
    Integer,
}

/// The attributes that a field's declaration lacks.
#[derive(Clone, Copy, Debug, PartialEq, Eq, Structural)]
pub struct MissingAttributes {
    pub path: bool,
    pub tile_size_x: bool,
    pub tile_size_y: bool,
    pub columns: bool,
    pub rows: bool,
}

#[derive(Clone, Debug, PartialEq, Eq)]
pub enum ParseFieldError {
    /// The field has no asset attributes: it is default-constructed.
    NoAttributes,
    KeyAttributeStandsAlone,
    OnlyDynamicCanBeOptional,
    WrongAttributeType(ItemPos, LiteralKind),
    UnknownAttributeType(ItemPos),
    UnknownAttribute(ItemPos),
    MissingAttributes(MissingAttributes),
    MissingRenderFeature(ItemPos),
}

/// What the attributes of one field set, before validation.
#[derive(Clone, Debug)]
pub struct AssetBuilder {
    pub path: Option<String>,
    pub key: Option<String>,
    pub is_optional: bool,
    pub is_folder: bool,
    pub is_typed_folder: bool,
    pub is_standard_material: bool,
    pub tile_size_x: Option<String>,
    pub tile_size_y: Option<String>,
    pub columns: Option<String>,
    pub rows: Option<String>,
    pub padding_x: Option<String>,
    pub padding_y: Option<String>,
}

/// How a field is loaded and created.
#[derive(Clone, Debug, PartialEq, Eq)]
pub enum AssetKind {
    Default,
    File { path: String },
    Dynamic { key: String, optional: bool },
    Folder { path: String, typed: bool },
    StandardMaterial { path: String },
    TextureAtlas {
        path: String,
        tile_size_x: String,
        tile_size_y: String,
        columns: String,
        rows: String,
        padding_x: Option<String>,
        padding_y: Option<String>,
    },
}

pub open spec fn empty_builder() -> AssetBuilder {
    AssetBuilder {
        path: None,
        key: None,
        is_optional: false,
        is_folder: false,
        is_typed_folder: false,
        is_standard_material: false,
        tile_size_x: None,
        tile_size_y: None,
        columns: None,
        rows: None,
        padding_x: None,
        padding_y: None,
    }
}

pub type Parsed = (AssetBuilder, Seq<ParseFieldError>);

pub open spec fn wrong_type(p: Parsed, pos: ItemPos, kind: LiteralKind) -> Parsed {
    (p.0, p.1.push(ParseFieldError::WrongAttributeType(pos, kind)))
}

pub open spec fn with_error(p: Parsed, e: ParseFieldError) -> Parsed {
    (p.0, p.1.push(e))
}

/// One item of a `texture_atlas(..)` list.
pub open spec fn apply_atlas_item(p: Parsed, item: NestedItem, pos: ItemPos) -> Parsed {
    let b = p.0;
    match item {
        NestedItem::NameValue(n, lit) => if n@ == "tile_size_x"@ {
            match lit {
                Literal::Float(t) => (AssetBuilder { tile_size_x: Some(t), ..b }, p.1),
                _ => wrong_type(p, pos, LiteralKind::Float),
            }
        } else if n@ == "tile_size_y"@ {
            match lit {
                Literal::Float(t) => (AssetBuilder { tile_size_y: Some(t), ..b }, p.1),
                _ => wrong_type(p, pos, LiteralKind::Float),
            }
        } else if n@ == "columns"@ {
            match lit {
                Literal::Int(t) => (AssetBuilder { columns: Some(t), ..b }, p.1),
                _ => wrong_type(p, pos, LiteralKind::Integer),
            }
        } else if n@ == "rows"@ {
            match lit {
                Literal::Int(t) => (AssetBuilder { rows: Some(t), ..b }, p.1),
                _ => wrong_type(p, pos, LiteralKind::Integer),
            }
        } else if n@ == "padding_x"@ {
            match lit {
                Literal::Float(t) => (AssetBuilder { padding_x: Some(t), ..b }, p.1),
                _ => wrong_type(p, pos, LiteralKind::Float),
            }
        } else if n@ == "padding_y"@ {
            match lit {
                Literal::Float(t) => (AssetBuilder { padding_y: Some(t), ..b }, p.1),
                _ => wrong_type(p, pos, LiteralKind::Float),
            }
        } else {
            with_error(p, ParseFieldError::UnknownAttribute(pos))
        },
        _ => with_error(p, ParseFieldError::UnknownAttributeType(pos)),
    }
}

/// One item of a `folder(..)` list.
pub open spec fn apply_folder_item(p: Parsed, item: NestedItem, pos: ItemPos) -> Parsed {
    match item {
        NestedItem::Word(n) => if n@ == "typed"@ {
            (AssetBuilder { is_folder: true, is_typed_folder: true, ..p.0 }, p.1)
        } else {
            with_error(p, ParseFieldError::UnknownAttribute(pos))
        },
        _ => with_error(p, ParseFieldError::UnknownAttributeType(pos)),
    }
}

pub open spec fn nested_pos(a: usize, i: usize, j: int) -> ItemPos {
    ItemPos { attribute: a, item: i, nested: Some(j as usize) }
}

/// The items of a list item in order; `atlas` picks the atlas rules over
/// the folder rules.
pub open spec fn apply_nested(
    p: Parsed,
    items: Seq<NestedItem>,
    a: usize,
    i: usize,
    atlas: bool,
) -> Parsed
    decreases items.len(),
{
    if items.len() == 0 {
        p
    } else {
        let q = apply_nested(p, items.drop_last(), a, i, atlas);
        let pos = nested_pos(a, i, items.len() - 1);
        if atlas {
            apply_atlas_item(q, items.last(), pos)
        } else {
            apply_folder_item(q, items.last(), pos)
        }
    }
}

/// One item of an `asset(..)` attribute.
pub open spec fn apply_item(p: Parsed, item: AttributeItem, pos: ItemPos, render: bool) -> Parsed {
    let b = p.0;
    match item {
        AttributeItem::NameValue(n, lit) => if n@ == "path"@ {
            match lit {
                Literal::Str(s) => (AssetBuilder { path: Some(s), ..b }, p.1),
                _ => wrong_type(p, pos, LiteralKind::Str),
            }
        } else if n@ == "key"@ {
            match lit {
                Literal::Str(s) => (AssetBuilder { key: Some(s), ..b }, p.1),
                _ => wrong_type(p, pos, LiteralKind::Str),
            }
        } else {
            with_error(p, ParseFieldError::UnknownAttribute(pos))
        },
        AttributeItem::Word(n) => if n@ == "standard_material"@ {
            if render {
                (AssetBuilder { is_standard_material: true, ..b }, p.1)
            } else {
                with_error(p, ParseFieldError::MissingRenderFeature(pos))
            }
        } else if n@ == "optional"@ {
            (AssetBuilder { is_optional: true, ..b }, p.1)
        } else if n@ == "folder"@ {
            (AssetBuilder { is_folder: true, ..b }, p.1)
        } else {
            with_error(p, ParseFieldError::UnknownAttribute(pos))
        },
        AttributeItem::List(n, nested) => if n@ == "texture_atlas"@ {
            if render {
                apply_nested(p, nested@, pos.attribute, pos.item, true)
            } else {
                with_error(p, ParseFieldError::MissingRenderFeature(pos))
            }
        } else if n@ == "folder"@ {
            apply_nested(p, nested@, pos.attribute, pos.item, false)
        } else {
            with_error(p, ParseFieldError::UnknownAttribute(pos))
        },
        AttributeItem::Other => with_error(p, ParseFieldError::UnknownAttributeType(pos)),
    }
}

/// The items of one attribute in order.
pub open spec fn apply_items(p: Parsed, items: Seq<AttributeItem>, a: usize, render: bool) -> Parsed
    decreases items.len(),
{
    if items.len() == 0 {
        p
    } else {
        let q = apply_items(p, items.drop_last(), a, render);
        let pos = ItemPos { attribute: a, item: (items.len() - 1) as usize, nested: None };
        apply_item(q, items.last(), pos, render)
    }
}

/// The attributes of a field in order; only those named `asset` count.
pub open spec fn apply_attributes(p: Parsed, attrs: Seq<Attribute>, render: bool) -> Parsed
    decreases attrs.len(),
{
    if attrs.len() == 0 {
        p
    } else {
        let q = apply_attributes(p, attrs.drop_last(), render);
        let a = attrs.last();
        if a.name@ == "asset"@ {
            apply_items(q, a.items@, (attrs.len() - 1) as usize, render)
        } else {
            q
        }
    }
}

pub open spec fn atlas_started(b: AssetBuilder) -> bool {
    b.tile_size_x is Some || b.tile_size_y is Some || b.columns is Some || b.rows is Some
        || b.padding_x is Some || b.padding_y is Some
}

/// The attributes a field lacks: its path, and the required atlas values once
/// any atlas value is given.
pub open spec fn missing_of(b: AssetBuilder) -> MissingAttributes {
    let atlas = atlas_started(b);
    MissingAttributes {
        path: b.path is None,
        tile_size_x: atlas && b.tile_size_x is None,
        tile_size_y: atlas && b.tile_size_y is None,
        columns: atlas && b.columns is None,
        rows: atlas && b.rows is None,
    }
}

pub open spec fn any_missing(m: MissingAttributes) -> bool {
    m.path || m.tile_size_x || m.tile_size_y || m.columns || m.rows
}

/// Validation of what a field's attributes set.
pub open spec fn build_spec(b: AssetBuilder) -> Result<AssetKind, Seq<ParseFieldError>> {
    if b.key is Some && (b.path is Some || b.is_folder || b.is_standard_material || atlas_started(
        b,
    )) {
        Err(seq![ParseFieldError::KeyAttributeStandsAlone])
    } else if b.is_optional && b.key is None {
        Err(seq![ParseFieldError::OnlyDynamicCanBeOptional])
    } else if b.key is Some {
        Ok(AssetKind::Dynamic { key: b.key->0, optional: b.is_optional })
    } else if b.path is None && !b.is_folder && !b.is_standard_material && !atlas_started(b) {
        Err(seq![ParseFieldError::NoAttributes])
    } else if any_missing(missing_of(b)) {
        Err(seq![ParseFieldError::MissingAttributes(missing_of(b))])
    } else if atlas_started(b) {
        Ok(
            AssetKind::TextureAtlas {
                path: b.path->0,
                tile_size_x: b.tile_size_x->0,
                tile_size_y: b.tile_size_y->0,
                columns: b.columns->0,
                rows: b.rows->0,
                padding_x: b.padding_x,
                padding_y: b.padding_y,
            },
        )
    } else if b.is_folder {
        Ok(AssetKind::Folder { path: b.path->0, typed: b.is_typed_folder })
    } else if b.is_standard_material {
        Ok(AssetKind::StandardMaterial { path: b.path->0 })
    } else {
        Ok(AssetKind::File { path: b.path->0 })
    }
}

/// What one field's attributes resolve to: the strategy, or every error.
pub open spec fn parse_field_spec(f: FieldDecl, render: bool) -> Result<
    AssetKind,
    Seq<ParseFieldError>,
> {
    let p = apply_attributes((empty_builder(), Seq::empty()), f.attributes@, render);
    if p.1.len() > 0 {
        Err(p.1)
    } else {
        build_spec(p.0)
    }
}


/// Whether an item is `name = "<string>"`.
pub open spec fn is_str_item(item: AttributeItem, name: Seq<char>) -> bool {
    item matches AttributeItem::NameValue(n, Literal::Str(_)) && n@ == name
}

/// Whether an attribute list is the single `asset(..)` attribute with these items.
pub open spec fn only_asset_items(f: FieldDecl, items: Seq<AttributeItem>) -> bool {
    f.attributes@.len() == 1 && f.attributes@[0].name@ == "asset"@ && f.attributes@[0].items@
        == items
}

/// What a field's attributes set, with the errors of malformed items.
pub open spec fn parsed_of(f: FieldDecl, render: bool) -> Parsed {
    apply_attributes((empty_builder(), Seq::empty()), f.attributes@, render)
}

/// A field annotated with both `key` and `path`, and nothing else, resolves to
/// exactly one `KeyAttributeStandsAlone` error and no strategy.
pub proof fn lemma_key_and_path_conflict(f: FieldDecl, render: bool)
    requires
        f.attributes@.len() == 1,
        f.attributes@[0].name@ == "asset"@,
        f.attributes@[0].items@.len() == 2,
        (is_str_item(f.attributes@[0].items@[0], "key"@) && is_str_item(
            f.attributes@[0].items@[1],
            "path"@,
        )) || (is_str_item(f.attributes@[0].items@[0], "path"@) && is_str_item(
            f.attributes@[0].items@[1],
            "key"@,
        )),
    ensures
        parse_field_spec(f, render) == Err::<AssetKind, Seq<ParseFieldError>>(
            seq![ParseFieldError::KeyAttributeStandsAlone],
        ),
{
    reveal_strlit("key");
    reveal_strlit("path");
    reveal_strlit("asset");
    assert("key"@.len() == 3 && "path"@.len() == 4);
    let attrs = f.attributes@;
    let items = attrs[0].items@;
    let start: Parsed = (empty_builder(), Seq::empty());
    assert(attrs.drop_last() =~= Seq::<Attribute>::empty());
    assert(items.drop_last().drop_last() =~= Seq::<AttributeItem>::empty());
    assert(apply_attributes(start, attrs.drop_last(), render) == start);
    let pos0 = ItemPos { attribute: 0, item: 0, nested: None };
    let pos1 = ItemPos { attribute: 0, item: 1, nested: None };
    assert(apply_items(start, items.drop_last().drop_last(), 0, render) == start);
    let first = apply_item(start, items[0], pos0, render);
    assert(apply_items(start, items.drop_last(), 0, render) == first);
    let second = apply_item(first, items[1], pos1, render);
    assert(apply_items(start, items, 0, render) == second);
    assert(apply_attributes(start, attrs, render) == second);
    assert(second.1.len() == 0);
    assert(second.0.key is Some && second.0.path is Some);
}

/// However a field's attributes are written, once they parse without item
/// errors and set `key` together with `path`, a folder, a material or an
/// atlas value, the field resolves to exactly one `KeyAttributeStandsAlone`
/// error.
pub proof fn lemma_key_stands_alone(f: FieldDecl, render: bool)
    requires
        parsed_of(f, render).1.len() == 0,
        parsed_of(f, render).0.key is Some,
        parsed_of(f, render).0.path is Some || parsed_of(f, render).0.is_folder || parsed_of(
            f,
            render,
        ).0.is_standard_material || atlas_started(parsed_of(f, render).0),
    ensures
        parse_field_spec(f, render) == Err::<AssetKind, Seq<ParseFieldError>>(
            seq![ParseFieldError::KeyAttributeStandsAlone],
        ),
{
}

/// A field annotated `optional` alone resolves to exactly one
/// `OnlyDynamicCanBeOptional` error.
pub proof fn lemma_optional_without_key(f: FieldDecl, render: bool)
    requires
        f.attributes@.len() == 1,
        f.attributes@[0].name@ == "asset"@,
        f.attributes@[0].items@.len() == 1,
        f.attributes@[0].items@[0] matches AttributeItem::Word(n) && n@ == "optional"@,
    ensures
        parse_field_spec(f, render) == Err::<AssetKind, Seq<ParseFieldError>>(
            seq![ParseFieldError::OnlyDynamicCanBeOptional],
        ),
{
    reveal_strlit("optional");
    reveal_strlit("standard_material");
    reveal_strlit("asset");
    assert("optional"@.len() == 8 && "standard_material"@.len() == 17);
    let attrs = f.attributes@;
    let items = attrs[0].items@;
    let start: Parsed = (empty_builder(), Seq::empty());
    assert(attrs.drop_last() =~= Seq::<Attribute>::empty());
    assert(items.drop_last() =~= Seq::<AttributeItem>::empty());
    assert(apply_attributes(start, attrs.drop_last(), render) == start);
    assert(apply_items(start, items.drop_last(), 0, render) == start);
    let first = apply_item(start, items[0], ItemPos { attribute: 0, item: 0, nested: None }, render);
    assert(apply_items(start, items, 0, render) == first);
    assert(apply_attributes(start, attrs, render) == first);
    assert(first.1.len() == 0);
    assert(first.0.is_optional && first.0.key is None);
}

/// However a field's attributes are written, once they parse without item
/// errors and set `optional` but no `key`, the field resolves to exactly one
/// `OnlyDynamicCanBeOptional` error.
pub proof fn lemma_only_dynamic_can_be_optional(f: FieldDecl, render: bool)
    requires
        parsed_of(f, render).1.len() == 0,
        parsed_of(f, render).0.is_optional,
        parsed_of(f, render).0.key is None,
    ensures
        parse_field_spec(f, render) == Err::<AssetKind, Seq<ParseFieldError>>(
            seq![ParseFieldError::OnlyDynamicCanBeOptional],
        ),
{
}

/// Whether an exec result carries the same strategy or the same errors as a
/// spec result.
pub open spec fn same_result(
    r: Result<AssetKind, Vec<ParseFieldError>>,
    s: Result<AssetKind, Seq<ParseFieldError>>,
) -> bool {
    match (r, s) {
        (Ok(k), Ok(l)) => k == l,
        (Err(e), Err(f)) => e@ == f,
        _ => false,
    }
}

fn is_named(s: &String, name: &str) -> (r: bool)
    ensures
        r == (s@ == name@),
{
    let n: String = name.to_owned();
    *s == n
}

fn clone_opt(s: &Option<String>) -> (r: Option<String>)
    ensures
        r == *s,
{
    match s {
        Some(t) => Some(t.clone()),
        None => None,
    }
}

fn push_error(errs: &mut Vec<ParseFieldError>, e: ParseFieldError)
    ensures
        final(errs)@ == old(errs)@.push(e),
{
    errs.push(e);
}

fn parse_atlas_item(
    b: &mut AssetBuilder,
    errs: &mut Vec<ParseFieldError>,
    item: &NestedItem,
    pos: ItemPos,
)
    ensures
        (*final(b), final(errs)@) == apply_atlas_item((*old(b), old(errs)@), *item, pos),
{
    match item {
        NestedItem::NameValue(n, lit) => {
            if is_named(n, "tile_size_x") {
                match lit {
                    Literal::Float(t) => b.tile_size_x = Some(t.clone()),
                    _ => push_error(errs, ParseFieldError::WrongAttributeType(pos, LiteralKind::Float)),
                }
            } else if is_named(n, "tile_size_y") {
                match lit {
                    Literal::Float(t) => b.tile_size_y = Some(t.clone()),
                    _ => push_error(errs, ParseFieldError::WrongAttributeType(pos, LiteralKind::Float)),
                }
            } else if is_named(n, "columns") {
                match lit {
                    Literal::Int(t) => b.columns = Some(t.clone()),
                    _ => push_error(
                        errs,
                        ParseFieldError::WrongAttributeType(pos, LiteralKind::Integer),
                    ),
                }
            } else if is_named(n, "rows") {
                match lit {
                    Literal::Int(t) => b.rows = Some(t.clone()),
                    _ => push_error(
                        errs,
                        ParseFieldError::WrongAttributeType(pos, LiteralKind::Integer),
                    ),
                }
            } else if is_named(n, "padding_x") {
                match lit {
                    Literal::Float(t) => b.padding_x = Some(t.clone()),
                    _ => push_error(errs, ParseFieldError::WrongAttributeType(pos, LiteralKind::Float)),
                }
            } else if is_named(n, "padding_y") {
                match lit {
                    Literal::Float(t) => b.padding_y = Some(t.clone()),
                    _ => push_error(errs, ParseFieldError::WrongAttributeType(pos, LiteralKind::Float)),
                }
            } else {
                push_error(errs, ParseFieldError::UnknownAttribute(pos));
            }
        },
        _ => push_error(errs, ParseFieldError::UnknownAttributeType(pos)),
    }
}

fn parse_folder_item(
    b: &mut AssetBuilder,
    errs: &mut Vec<ParseFieldError>,
    item: &NestedItem,
    pos: ItemPos,
)
    ensures
        (*final(b), final(errs)@) == apply_folder_item((*old(b), old(errs)@), *item, pos),
{
    match item {
        NestedItem::Word(n) => {
            if is_named(n, "typed") {
                b.is_folder = true;
                b.is_typed_folder = true;
            } else {
                push_error(errs, ParseFieldError::UnknownAttribute(pos));
            }
        },
        _ => push_error(errs, ParseFieldError::UnknownAttributeType(pos)),
    }
}

fn parse_nested(
    b: &mut AssetBuilder,
    errs: &mut Vec<ParseFieldError>,
    items: &Vec<NestedItem>,
    a: usize,
    i: usize,
    atlas: bool,
)
    ensures
        (*final(b), final(errs)@) == apply_nested((*old(b), old(errs)@), items@, a, i, atlas),
{
    let ghost initial = (*b, errs@);
    let mut j: usize = 0;
    while j < items.len()
        invariant
            j <= items.len(),
            (*b, errs@) == apply_nested(initial, items@.take(j as int), a, i, atlas),
        decreases items.len() - j,
    {
        proof {
            assert(items@.take(j + 1).drop_last() =~= items@.take(j as int));
        }
        let pos = ItemPos { attribute: a, item: i, nested: Some(j) };
        if atlas {
            parse_atlas_item(b, errs, &items[j], pos);
        } else {
            parse_folder_item(b, errs, &items[j], pos);
        }
        j += 1;
    }
    proof {
        assert(items@.take(items.len() as int) =~= items@);
    }
}

fn parse_item(
    b: &mut AssetBuilder,
    errs: &mut Vec<ParseFieldError>,
    item: &AttributeItem,
    pos: ItemPos,
    render: bool,
)
    ensures
        (*final(b), final(errs)@) == apply_item((*old(b), old(errs)@), *item, pos, render),
{
    match item {
        AttributeItem::NameValue(n, lit) => {
            if is_named(n, "path") {
                match lit {
                    Literal::Str(t) => b.path = Some(t.clone()),
                    _ => push_error(errs, ParseFieldError::WrongAttributeType(pos, LiteralKind::Str)),
                }
            } else if is_named(n, "key") {
                match lit {
                    Literal::Str(t) => b.key = Some(t.clone()),
                    _ => push_error(errs, ParseFieldError::WrongAttributeType(pos, LiteralKind::Str)),
                }
            } else {
                push_error(errs, ParseFieldError::UnknownAttribute(pos));
            }
        },
        AttributeItem::Word(n) => {
            if is_named(n, "standard_material") {
                if render {
                    b.is_standard_material = true;
                } else {
                    push_error(errs, ParseFieldError::MissingRenderFeature(pos));
                }
            } else if is_named(n, "optional") {
                b.is_optional = true;
            } else if is_named(n, "folder") {
                b.is_folder = true;
            } else {
                push_error(errs, ParseFieldError::UnknownAttribute(pos));
            }
        },
        AttributeItem::List(n, nested) => {
            if is_named(n, "texture_atlas") {
                if render {
                    parse_nested(b, errs, nested, pos.attribute, pos.item, true);
                } else {
                    push_error(errs, ParseFieldError::MissingRenderFeature(pos));
                }
            } else if is_named(n, "folder") {
                parse_nested(b, errs, nested, pos.attribute, pos.item, false);
            } else {
                push_error(errs, ParseFieldError::UnknownAttribute(pos));
            }
        },
        AttributeItem::Other => push_error(errs, ParseFieldError::UnknownAttributeType(pos)),
    }
}

fn parse_items(
    b: &mut AssetBuilder,
    errs: &mut Vec<ParseFieldError>,
    items: &Vec<AttributeItem>,
    a: usize,
    render: bool,
)
    ensures
        (*final(b), final(errs)@) == apply_items((*old(b), old(errs)@), items@, a, render),
{
    let ghost initial = (*b, errs@);
    let mut i: usize = 0;
    while i < items.len()
        invariant
            i <= items.len(),
            (*b, errs@) == apply_items(initial, items@.take(i as int), a, render),
        decreases items.len() - i,
    {
        proof {
            assert(items@.take(i + 1).drop_last() =~= items@.take(i as int));
        }
        let pos = ItemPos { attribute: a, item: i, nested: None };
        parse_item(b, errs, &items[i], pos, render);
        i += 1;
    }
    proof {
        assert(items@.take(items.len() as int) =~= items@);
    }
}

fn parse_attributes(
    b: &mut AssetBuilder,
    errs: &mut Vec<ParseFieldError>,
    attrs: &Vec<Attribute>,
    render: bool,
)
    ensures
        (*final(b), final(errs)@) == apply_attributes((*old(b), old(errs)@), attrs@, render),
{
    let ghost initial = (*b, errs@);
    let mut a: usize = 0;
    while a < attrs.len()
        invariant
            a <= attrs.len(),
            (*b, errs@) == apply_attributes(initial, attrs@.take(a as int), render),
        decreases attrs.len() - a,
    {
        proof {
            assert(attrs@.take(a + 1).drop_last() =~= attrs@.take(a as int));
        }
        let attr = &attrs[a];
        if is_named(&attr.name, "asset") {
            parse_items(b, errs, &attr.items, a, render);
        }
        a += 1;
    }
    proof {
        assert(attrs@.take(attrs.len() as int) =~= attrs@);
    }
}

fn single_error(e: ParseFieldError) -> (r: Vec<ParseFieldError>)
    ensures
        r@ == seq![e],
{
    let mut v = Vec::new();
    v.push(e);
    proof {
        assert(v@ =~= seq![e]);
    }
    v
}

impl AssetBuilder {
    pub fn new() -> (r: Self)
        ensures
            r == empty_builder(),
    {
        AssetBuilder {
            path: None,
            key: None,
            is_optional: false,
            is_folder: false,
            is_typed_folder: false,
            is_standard_material: false,
            tile_size_x: None,
            tile_size_y: None,
            columns: None,
            rows: None,
            padding_x: None,
            padding_y: None,
        }
    }

    /// Validates what the attributes set and picks the field's strategy.
    pub fn build(&self) -> (r: Result<AssetKind, Vec<ParseFieldError>>)
        ensures
            same_result(r, build_spec(*self)),
    {
        let atlas = self.tile_size_x.is_some() || self.tile_size_y.is_some()
            || self.columns.is_some() || self.rows.is_some() || self.padding_x.is_some()
            || self.padding_y.is_some();
        if self.key.is_some() && (self.path.is_some() || self.is_folder
            || self.is_standard_material || atlas) {
            return Err(single_error(ParseFieldError::KeyAttributeStandsAlone));
        }
        if self.is_optional && self.key.is_none() {
            return Err(single_error(ParseFieldError::OnlyDynamicCanBeOptional));
        }
        if let Some(k) = &self.key {
            return Ok(AssetKind::Dynamic { key: k.clone(), optional: self.is_optional });
        }
        if self.path.is_none() && !self.is_folder && !self.is_standard_material && !atlas {
            return Err(single_error(ParseFieldError::NoAttributes));
        }
        let missing = MissingAttributes {
            path: self.path.is_none(),
            tile_size_x: atlas && self.tile_size_x.is_none(),
            tile_size_y: atlas && self.tile_size_y.is_none(),
            columns: atlas && self.columns.is_none(),
            rows: atlas && self.rows.is_none(),
        };
        if missing.path || missing.tile_size_x || missing.tile_size_y || missing.columns
            || missing.rows {
            return Err(single_error(ParseFieldError::MissingAttributes(missing)));
        }
        let path = clone_opt(&self.path).unwrap();
        if atlas {
            Ok(
                AssetKind::TextureAtlas {
                    path,
                    tile_size_x: clone_opt(&self.tile_size_x).unwrap(),
                    tile_size_y: clone_opt(&self.tile_size_y).unwrap(),
                    columns: clone_opt(&self.columns).unwrap(),
                    rows: clone_opt(&self.rows).unwrap(),
                    padding_x: clone_opt(&self.padding_x),
                    padding_y: clone_opt(&self.padding_y),
                },
            )
        } else if self.is_folder {
            Ok(AssetKind::Folder { path, typed: self.is_typed_folder })
        } else if self.is_standard_material {
            Ok(AssetKind::StandardMaterial { path })
        } else {
            Ok(AssetKind::File { path })
        }
    }
}

/// Resolves one field's attributes into its strategy, or reports every
/// malformed attribute of it; a field without asset attributes reports
/// `NoAttributes` alone.
pub fn parse_field(field: &FieldDecl, render: bool) -> (r: Result<AssetKind, Vec<ParseFieldError>>)
    ensures
        same_result(r, parse_field_spec(*field, render)),
{
    let mut b = AssetBuilder::new();
    let mut errs: Vec<ParseFieldError> = Vec::new();
    parse_attributes(&mut b, &mut errs, &field.attributes, render);
    if errs.len() > 0 {
        return Err(errs);
    }
    b.build()
}

} // verus!
