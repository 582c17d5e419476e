//! A whole asset collection: every field resolved to a strategy, or every
//! error of every field, and the load requests that the strategies issue.
use crate::attributes::{
    parse_field, parse_field_spec, AssetKind, FieldDecl, ParseFieldError,
};
use vstd::prelude::*;

verus! {

/// A field of a collection and how it is loaded and created.
#[derive(Clone, Debug, PartialEq, Eq)]
pub struct AssetField {
    pub name: String,
    pub kind: AssetKind,
}

/// The errors of one field, by its index in the collection.
#[derive(Clone, Debug, PartialEq, Eq)]
pub struct FieldErrors {
    pub field: usize,
    pub errors: Vec<ParseFieldError>,
}

/// The shape of the type a collection is derived for.
#[derive(Clone, Debug, PartialEq, Eq)]
pub enum CollectionInput {
    NamedStruct(Vec<FieldDecl>),
    /// A tuple or unit struct.
    OtherStruct,
    NotAStruct,
}

#[derive(Clone, Debug, PartialEq, Eq)]
pub enum DeriveError {
    NotAStruct,
    OnlyNamedFields,
    Fields(Vec<FieldErrors>),
}

/// A load that the collection's load procedure issues.
#[derive(Clone, Debug, PartialEq, Eq)]
pub enum LoadRequest {
    File(String),
    Folder(String),
    /// Looked up in the asset keys; an optional key may be absent.
    Key { key: String, optional: bool },
}

/// What one field contributes: its strategy, or its errors with its index.
pub open spec fn field_outcome(f: FieldDecl, i: int, render: bool) -> (
    Seq<AssetField>,
    Seq<(usize, Seq<ParseFieldError>)>,
) {
    match parse_field_spec(f, render) {
        Ok(k) => (seq![AssetField { name: f.name, kind: k }], Seq::empty()),
        Err(es) => if es == seq![ParseFieldError::NoAttributes] {
            (seq![AssetField { name: f.name, kind: AssetKind::Default }], Seq::empty())
        } else {
            (Seq::empty(), seq![(i as usize, es)])
        },
    }
}

/// The fields' outcomes in declaration order.
pub open spec fn collect_fields(fields: Seq<FieldDecl>, render: bool) -> (
    Seq<AssetField>,
    Seq<(usize, Seq<ParseFieldError>)>,
)
    decreases fields.len(),
{
    if fields.len() == 0 {
        (Seq::empty(), Seq::empty())
    } else {
        let p = collect_fields(fields.drop_last(), render);
        let o = field_outcome(fields.last(), fields.len() - 1, render);
        (p.0 + o.0, p.1 + o.1)
    }
}

pub open spec fn errors_view(v: Seq<FieldErrors>) -> Seq<(usize, Seq<ParseFieldError>)> {
    v.map_values(|e: FieldErrors| (e.field, e.errors@))
}

/// Whether `r` is what deriving a collection for `input` gives: the fields'
/// strategies when no field has an error, else every field's errors.
pub open spec fn describes(
    input: CollectionInput,
    render: bool,
    r: Result<Vec<AssetField>, DeriveError>,
) -> bool {
    match input {
        CollectionInput::NotAStruct => r == Err::<Vec<AssetField>, DeriveError>(
            DeriveError::NotAStruct,
        ),
        CollectionInput::OtherStruct => r == Err::<Vec<AssetField>, DeriveError>(
            DeriveError::OnlyNamedFields,
        ),
        CollectionInput::NamedStruct(fields) => {
            let c = collect_fields(fields@, render);
            if c.1.len() > 0 {
                r matches Err(DeriveError::Fields(e)) && errors_view(e@) == c.1
            } else {
                r matches Ok(v) && v@ == c.0
            }
        },
    }
}

/// The load a field's strategy issues, if any.
pub open spec fn request_of(k: AssetKind) -> Option<LoadRequest> {
    match k {
        AssetKind::Default => None,
        AssetKind::File { path } => Some(LoadRequest::File(path)),
        AssetKind::Dynamic { key, optional } => Some(LoadRequest::Key { key, optional }),
        AssetKind::Folder { path, typed } => Some(LoadRequest::Folder(path)),
        AssetKind::StandardMaterial { path } => Some(LoadRequest::File(path)),
        AssetKind::TextureAtlas { path, .. } => Some(LoadRequest::File(path)),
    }
}

/// The loads of the fields in declaration order.
pub open spec fn requests_spec(fields: Seq<AssetField>) -> Seq<LoadRequest>
    decreases fields.len(),
{
    if fields.len() == 0 {
        Seq::empty()
    } else {
        let p = requests_spec(fields.drop_last());
        match request_of(fields.last().kind) {
            Some(r) => p.push(r),
            None => p,
        }
    }
}

/// Resolves every field of a collection, collecting the errors of all of
/// them rather than stopping at the first.
pub fn describe_collection(input: &CollectionInput, render: bool) -> (r: Result<
    Vec<AssetField>,
    DeriveError,
>)
    ensures
        describes(*input, render, r),
{
    let fields = match input {
        CollectionInput::NotAStruct => {
            return Err(DeriveError::NotAStruct);
        },
        CollectionInput::OtherStruct => {
            return Err(DeriveError::OnlyNamedFields);
        },
        CollectionInput::NamedStruct(fields) => fields,
    };
    let mut assets: Vec<AssetField> = Vec::new();
    let mut errors: Vec<FieldErrors> = Vec::new();
    let mut i: usize = 0;
    while i < fields.len()
        invariant
            i <= fields.len(),
            (assets@, errors_view(errors@)) == collect_fields(fields@.take(i as int), render),
        decreases fields.len() - i,
    {
        proof {
            assert(fields@.take(i + 1).drop_last() =~= fields@.take(i as int));
        }
        let f = &fields[i];
        let ghost before = errors@;
        match parse_field(f, render) {
            Ok(kind) => {
                assets.push(AssetField { name: f.name.clone(), kind });
            },
            Err(es) => {
                if es.len() == 1 && matches!(es[0], ParseFieldError::NoAttributes) {
                    proof {
                        assert(es@ =~= seq![ParseFieldError::NoAttributes]);
                    }
                    assets.push(AssetField { name: f.name.clone(), kind: AssetKind::Default });
                } else {
                    proof {
                        if es@ == seq![ParseFieldError::NoAttributes] {
                            assert(es@[0] == ParseFieldError::NoAttributes);
                        }
                    }
                    errors.push(FieldErrors { field: i, errors: es });
                }
            },
        }
        proof {
            let o = field_outcome(fields@[i as int], i as int, render);
            assert(assets@ =~= collect_fields(fields@.take(i as int), render).0 + o.0);
            assert(errors_view(errors@) =~= errors_view(before) + o.1);
        }
        i += 1;
    }
    proof {
        assert(fields@.take(fields.len() as int) =~= fields@);
    }
    if errors.len() > 0 {
        Err(DeriveError::Fields(errors))
    } else {
        Ok(assets)
    }
}

/// The loads that a collection's load procedure issues, in field order;
/// default fields issue none.
pub fn load_requests(fields: &Vec<AssetField>) -> (r: Vec<LoadRequest>)
    ensures
        r@ == requests_spec(fields@),
{
    let mut out: Vec<LoadRequest> = Vec::new();
    let mut i: usize = 0;
    while i < fields.len()
        invariant
            i <= fields.len(),
            out@ == requests_spec(fields@.take(i as int)),
        decreases fields.len() - i,
    {
        proof {
            assert(fields@.take(i + 1).drop_last() =~= fields@.take(i as int));
        }
        match &fields[i].kind {
            AssetKind::Default => {},
            AssetKind::File { path } => out.push(LoadRequest::File(path.clone())),
            AssetKind::Dynamic { key, optional } => out.push(
                LoadRequest::Key { key: key.clone(), optional: *optional },
            ),
            AssetKind::Folder { path, .. } => out.push(LoadRequest::Folder(path.clone())),
            AssetKind::StandardMaterial { path } => out.push(LoadRequest::File(path.clone())),
            AssetKind::TextureAtlas { path, .. } => out.push(LoadRequest::File(path.clone())),
        }
        i += 1;
    }
    proof {
        assert(fields@.take(fields.len() as int) =~= fields@);
    }
    out
}

} // verus!
