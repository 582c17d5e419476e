use asset_loader::attributes::{
    parse_field, AssetKind, Attribute, AttributeItem, FieldDecl, ItemPos, Literal,
    LiteralKind, MissingAttributes, NestedItem, ParseFieldError,
};
use asset_loader::collection::{
    describe_collection, load_requests, AssetField, CollectionInput, DeriveError, FieldErrors,
    LoadRequest,
};

fn s(v: &str) -> String {
    v.to_string()
}

fn field(name: &str, items: Vec<AttributeItem>) -> FieldDecl {
    let attributes = if items.is_empty() {
        vec![]
    } else {
        vec![Attribute { name: s("asset"), items }]
    };
    FieldDecl { name: s(name), attributes }
}

fn named(name: &str, lit: Literal) -> AttributeItem {
    AttributeItem::NameValue(s(name), lit)
}

fn word(name: &str) -> AttributeItem {
    AttributeItem::Word(s(name))
}

fn string(v: &str) -> Literal {
    Literal::Str(s(v))
}

fn pos(attribute: usize, item: usize, nested: Option<usize>) -> ItemPos {
    ItemPos { attribute, item, nested }
}

#[test]
fn four_fields_resolve_to_four_strategies() {
    let input = CollectionInput::NamedStruct(vec![
        field("a", vec![]),
        field("b", vec![named("path", string("x.png"))]),
        field("c", vec![named("key", string("k"))]),
        field("d", vec![named("key", string("k")), word("optional")]),
    ]);
    let r = describe_collection(&input, false);
    assert_eq!(
        r,
        Ok(vec![
            AssetField { name: s("a"), kind: AssetKind::Default },
            AssetField { name: s("b"), kind: AssetKind::File { path: s("x.png") } },
            AssetField { name: s("c"), kind: AssetKind::Dynamic { key: s("k"), optional: false } },
            AssetField { name: s("d"), kind: AssetKind::Dynamic { key: s("k"), optional: true } },
        ])
    );
}

#[test]
fn key_and_path_conflict() {
    let f = field("f", vec![named("key", string("k")), named("path", string("x.png"))]);
    assert_eq!(parse_field(&f, false), Err(vec![ParseFieldError::KeyAttributeStandsAlone]));
    let g = field("g", vec![named("path", string("x.png")), named("key", string("k"))]);
    assert_eq!(parse_field(&g, true), Err(vec![ParseFieldError::KeyAttributeStandsAlone]));
}

#[test]
fn key_with_folder_conflicts() {
    let f = field("f", vec![named("key", string("k")), word("folder")]);
    assert_eq!(parse_field(&f, false), Err(vec![ParseFieldError::KeyAttributeStandsAlone]));
}

#[test]
fn optional_without_key_is_rejected() {
    let f = field("f", vec![word("optional")]);
    assert_eq!(parse_field(&f, false), Err(vec![ParseFieldError::OnlyDynamicCanBeOptional]));
    let g = field("g", vec![named("path", string("x.png")), word("optional")]);
    assert_eq!(parse_field(&g, false), Err(vec![ParseFieldError::OnlyDynamicCanBeOptional]));
}

#[test]
fn no_attributes_is_reported() {
    let f = field("f", vec![]);
    assert_eq!(parse_field(&f, false), Err(vec![ParseFieldError::NoAttributes]));
}

#[test]
fn other_attributes_are_ignored() {
    let f = FieldDecl {
        name: s("f"),
        attributes: vec![Attribute { name: s("serde"), items: vec![word("skip")] }],
    };
    assert_eq!(parse_field(&f, false), Err(vec![ParseFieldError::NoAttributes]));
}

#[test]
fn wrong_literal_types_are_all_reported() {
    let f = field(
        "f",
        vec![named("path", Literal::Int(s("3"))), named("key", Literal::Float(s("1.0")))],
    );
    assert_eq!(
        parse_field(&f, false),
        Err(vec![
            ParseFieldError::WrongAttributeType(pos(0, 0, None), LiteralKind::Str),
            ParseFieldError::WrongAttributeType(pos(0, 1, None), LiteralKind::Str),
        ])
    );
}

#[test]
fn unknown_attributes_and_shapes() {
    let f = field(
        "f",
        vec![
            named("path", string("x.png")),
            named("size", string("1")),
            word("huge"),
            AttributeItem::List(s("grid"), vec![]),
            AttributeItem::Other,
        ],
    );
    assert_eq!(
        parse_field(&f, false),
        Err(vec![
            ParseFieldError::UnknownAttribute(pos(0, 1, None)),
            ParseFieldError::UnknownAttribute(pos(0, 2, None)),
            ParseFieldError::UnknownAttribute(pos(0, 3, None)),
            ParseFieldError::UnknownAttributeType(pos(0, 4, None)),
        ])
    );
}

#[test]
fn render_attributes_need_the_capability() {
    let f = field(
        "f",
        vec![
            named("path", string("x.png")),
            word("standard_material"),
            AttributeItem::List(s("texture_atlas"), vec![]),
        ],
    );
    assert_eq!(
        parse_field(&f, false),
        Err(vec![
            ParseFieldError::MissingRenderFeature(pos(0, 1, None)),
            ParseFieldError::MissingRenderFeature(pos(0, 2, None)),
        ])
    );
}

#[test]
fn standard_material_with_render() {
    let f = field("f", vec![named("path", string("m.png")), word("standard_material")]);
    assert_eq!(parse_field(&f, true), Ok(AssetKind::StandardMaterial { path: s("m.png") }));
}

fn atlas_item(name: &str, lit: Literal) -> NestedItem {
    NestedItem::NameValue(s(name), lit)
}

#[test]
fn complete_texture_atlas() {
    let f = field(
        "f",
        vec![
            AttributeItem::List(
                s("texture_atlas"),
                vec![
                    atlas_item("tile_size_x", Literal::Float(s("16."))),
                    atlas_item("tile_size_y", Literal::Float(s("32."))),
                    atlas_item("columns", Literal::Int(s("4"))),
                    atlas_item("rows", Literal::Int(s("2"))),
                    atlas_item("padding_x", Literal::Float(s("1."))),
                ],
            ),
            named("path", string("atlas.png")),
        ],
    );
    assert_eq!(
        parse_field(&f, true),
        Ok(AssetKind::TextureAtlas {
            path: s("atlas.png"),
            tile_size_x: s("16."),
            tile_size_y: s("32."),
            columns: s("4"),
            rows: s("2"),
            padding_x: Some(s("1.")),
            padding_y: None,
        })
    );
}

#[test]
fn incomplete_texture_atlas_names_what_is_missing() {
    let f = field(
        "f",
        vec![AttributeItem::List(
            s("texture_atlas"),
            vec![atlas_item("tile_size_x", Literal::Float(s("16.")))],
        )],
    );
    assert_eq!(
        parse_field(&f, true),
        Err(vec![ParseFieldError::MissingAttributes(MissingAttributes {
            path: true,
            tile_size_x: false,
            tile_size_y: true,
            columns: true,
            rows: true,
        })])
    );
}

#[test]
fn atlas_items_are_checked() {
    let f = field(
        "f",
        vec![
            named("path", string("a.png")),
            AttributeItem::List(
                s("texture_atlas"),
                vec![
                    atlas_item("columns", Literal::Float(s("4."))),
                    atlas_item("tile_size_y", Literal::Int(s("3"))),
                    atlas_item("depth", Literal::Int(s("3"))),
                    NestedItem::Other,
                ],
            ),
        ],
    );
    assert_eq!(
        parse_field(&f, true),
        Err(vec![
            ParseFieldError::WrongAttributeType(pos(0, 1, Some(0)), LiteralKind::Integer),
            ParseFieldError::WrongAttributeType(pos(0, 1, Some(1)), LiteralKind::Float),
            ParseFieldError::UnknownAttribute(pos(0, 1, Some(2))),
            ParseFieldError::UnknownAttributeType(pos(0, 1, Some(3))),
        ])
    );
}

#[test]
fn folders_typed_and_untyped() {
    let f = field("f", vec![named("path", string("sounds")), word("folder")]);
    assert_eq!(parse_field(&f, false), Ok(AssetKind::Folder { path: s("sounds"), typed: false }));
    let g = field(
        "g",
        vec![
            named("path", string("images")),
            AttributeItem::List(s("folder"), vec![NestedItem::Word(s("typed"))]),
        ],
    );
    assert_eq!(parse_field(&g, false), Ok(AssetKind::Folder { path: s("images"), typed: true }));
}

#[test]
fn folder_list_items_are_checked() {
    let f = field(
        "f",
        vec![
            named("path", string("images")),
            AttributeItem::List(
                s("folder"),
                vec![NestedItem::Word(s("deep")), atlas_item("typed", string("yes"))],
            ),
        ],
    );
    assert_eq!(
        parse_field(&f, false),
        Err(vec![
            ParseFieldError::UnknownAttribute(pos(0, 1, Some(0))),
            ParseFieldError::UnknownAttributeType(pos(0, 1, Some(1))),
        ])
    );
}

#[test]
fn folder_without_path_is_missing_the_path() {
    let f = field("f", vec![word("folder")]);
    assert_eq!(
        parse_field(&f, false),
        Err(vec![ParseFieldError::MissingAttributes(MissingAttributes {
            path: true,
            tile_size_x: false,
            tile_size_y: false,
            columns: false,
            rows: false,
        })])
    );
}

#[test]
fn errors_of_every_field_are_collected() {
    let input = CollectionInput::NamedStruct(vec![
        field("a", vec![word("optional")]),
        field("b", vec![named("path", string("ok.png"))]),
        field("c", vec![named("key", string("k")), named("path", string("x.png"))]),
        field("d", vec![]),
    ]);
    assert_eq!(
        describe_collection(&input, false),
        Err(DeriveError::Fields(vec![
            FieldErrors { field: 0, errors: vec![ParseFieldError::OnlyDynamicCanBeOptional] },
            FieldErrors { field: 2, errors: vec![ParseFieldError::KeyAttributeStandsAlone] },
        ]))
    );
}

#[test]
fn only_named_structs() {
    assert_eq!(describe_collection(&CollectionInput::OtherStruct, false), Err(DeriveError::OnlyNamedFields));
    assert_eq!(describe_collection(&CollectionInput::NotAStruct, false), Err(DeriveError::NotAStruct));
    assert_eq!(describe_collection(&CollectionInput::NamedStruct(vec![]), false), Ok(vec![]));
}

#[test]
fn load_requests_follow_field_order() {
    let fields = vec![
        AssetField { name: s("a"), kind: AssetKind::Default },
        AssetField { name: s("b"), kind: AssetKind::File { path: s("b.png") } },
        AssetField { name: s("c"), kind: AssetKind::Folder { path: s("dir"), typed: true } },
        AssetField { name: s("d"), kind: AssetKind::Dynamic { key: s("k"), optional: true } },
        AssetField { name: s("e"), kind: AssetKind::StandardMaterial { path: s("m.png") } },
    ];
    assert_eq!(
        load_requests(&fields),
        vec![
            LoadRequest::File(s("b.png")),
            LoadRequest::Folder(s("dir")),
            LoadRequest::Key { key: s("k"), optional: true },
            LoadRequest::File(s("m.png")),
        ]
    );
}
