//! Vector-search request and response models: vector attributes, vector
//! indexes with their builders and validation, projections, similarity
//! functions, index updates and vector-search queries.
use vstd::prelude::*;
use vstd::string::StringSliceAdditionalSpecFns;

use crate::attribute_value::{
    self, attribute_value_to_json, AttributeValue, AttributeValueView,
};
use crate::json::{self, str_eq, JsonValue, JsonView};

verus! {

/// The outcome of a validating builder, with the built value taken by its view.
pub open spec fn result_view<T: View>(r: Result<T, &'static str>) -> Result<T::V, &'static str> {
    match r {
        Ok(t) => Ok(t@),
        Err(e) => Err(e),
    }
}

// ---------------------------------------------------------------------
// Similarity functions and index status
// ---------------------------------------------------------------------

/// Similarity functions for vector search.
#[derive(Debug, Clone, Copy, PartialEq, Eq, Structural)]
pub enum SimilarityFunction {
    Cosine,
    Euclidean,
    DotProduct,
}

/// The wire name of a similarity function.
pub open spec fn similarity_name(f: SimilarityFunction) -> Seq<char> {
    match f {
        SimilarityFunction::Cosine => "COSINE"@,
        SimilarityFunction::Euclidean => "EUCLIDEAN"@,
        SimilarityFunction::DotProduct => "DOT_PRODUCT"@,
    }
}

/// The similarity function with wire name `s`, if any.
pub open spec fn similarity_from_name(s: Seq<char>) -> Option<SimilarityFunction> {
    if s == "COSINE"@ {
        Some(SimilarityFunction::Cosine)
    } else if s == "EUCLIDEAN"@ {
        Some(SimilarityFunction::Euclidean)
    } else if s == "DOT_PRODUCT"@ {
        Some(SimilarityFunction::DotProduct)
    } else {
        None
    }
}

impl SimilarityFunction {
    pub fn as_str(&self) -> (r: &'static str)
        ensures
            r@ == similarity_name(*self),
    {
        match self {
            SimilarityFunction::Cosine => "COSINE",
            SimilarityFunction::Euclidean => "EUCLIDEAN",
            SimilarityFunction::DotProduct => "DOT_PRODUCT",
        }
    }
}

/// Reads a similarity function from its wire name.
pub(crate) fn parse_similarity_function(s: &str) -> (r: Option<SimilarityFunction>)
    ensures
        r == similarity_from_name(s@),
{
    if str_eq(s, "COSINE") {
        Some(SimilarityFunction::Cosine)
    } else if str_eq(s, "EUCLIDEAN") {
        Some(SimilarityFunction::Euclidean)
    } else if str_eq(s, "DOT_PRODUCT") {
        Some(SimilarityFunction::DotProduct)
    } else {
        None
    }
}

/// Status of a vector index, as reported in responses. Absent from
/// request JSON.
#[derive(Debug, Clone, Copy, PartialEq, Eq, Structural)]
pub enum IndexStatus {
    Creating,
    Updating,
    Deleting,
    Active,
}

/// The index status with wire name `s`, if any.
pub open spec fn index_status_from_name(s: Seq<char>) -> Option<IndexStatus> {
    if s == "CREATING"@ {
        Some(IndexStatus::Creating)
    } else if s == "UPDATING"@ {
        Some(IndexStatus::Updating)
    } else if s == "DELETING"@ {
        Some(IndexStatus::Deleting)
    } else if s == "ACTIVE"@ {
        Some(IndexStatus::Active)
    } else {
        None
    }
}

impl IndexStatus {
    pub(crate) fn from_str(s: &str) -> (r: Option<Self>)
        ensures
            r == index_status_from_name(s@),
    {
        if str_eq(s, "CREATING") {
            Some(IndexStatus::Creating)
        } else if str_eq(s, "UPDATING") {
            Some(IndexStatus::Updating)
        } else if str_eq(s, "DELETING") {
            Some(IndexStatus::Deleting)
        } else if str_eq(s, "ACTIVE") {
            Some(IndexStatus::Active)
        } else {
            None
        }
    }
}

// ---------------------------------------------------------------------
// Vector attributes
// ---------------------------------------------------------------------

/// The largest number of dimensions a vector attribute may have.
pub const MAX_DIMENSIONS: u32 = 16000;

/// Defines a vector attribute in a vector index.
#[derive(Debug, Clone, PartialEq)]
pub struct VectorAttribute {
    pub attribute_name: String,
    pub dimensions: u32,
}

pub struct VectorAttributeView {
    pub attribute_name: Seq<char>,
    pub dimensions: u32,
}

impl View for VectorAttribute {
    type V = VectorAttributeView;

    open spec fn view(&self) -> VectorAttributeView {
        VectorAttributeView { attribute_name: self.attribute_name@, dimensions: self.dimensions }
    }
}

impl VectorAttribute {
    pub fn builder() -> (r: VectorAttributeBuilder)
        ensures
            r@ == (VectorAttributeBuilderView { attribute_name: None, dimensions: None }),
    {
        VectorAttributeBuilder { attribute_name: None, dimensions: None }
    }
}

/// Builder for [VectorAttribute].
#[derive(Debug)]
pub struct VectorAttributeBuilder {
    attribute_name: Option<String>,
    dimensions: Option<u32>,
}

pub struct VectorAttributeBuilderView {
    pub attribute_name: Option<Seq<char>>,
    pub dimensions: Option<u32>,
}

impl View for VectorAttributeBuilder {
    type V = VectorAttributeBuilderView;

    closed spec fn view(&self) -> VectorAttributeBuilderView {
        VectorAttributeBuilderView {
            attribute_name: match self.attribute_name {
                Some(n) => Some(n@),
                None => None,
            },
            dimensions: self.dimensions,
        }
    }
}

/// What [`VectorAttributeBuilder::build`] gives for a builder in state `b`.
pub open spec fn attribute_build_outcome(b: VectorAttributeBuilderView) -> Result<
    VectorAttributeView,
    &'static str,
> {
    match b.attribute_name {
        None => Err("attribute_name is required"),
        Some(name) => if name.len() == 0 {
            Err("attribute_name must not be empty")
        } else {
            match b.dimensions {
                None => Err("dimensions is required"),
                Some(d) => if d == 0 {
                    Err("dimensions must be positive")
                } else if d > MAX_DIMENSIONS {
                    Err("dimensions must not exceed 16000")
                } else {
                    Ok(VectorAttributeView { attribute_name: name, dimensions: d })
                },
            }
        },
    }
}

impl Default for VectorAttributeBuilder {
    fn default() -> (r: Self)
        ensures
            r@ == (VectorAttributeBuilderView { attribute_name: None, dimensions: None }),
    {
        VectorAttributeBuilder { attribute_name: None, dimensions: None }
    }
}

impl VectorAttributeBuilder {
    pub fn attribute_name(self, name: &str) -> (r: Self)
        ensures
            r@ == (VectorAttributeBuilderView { attribute_name: Some(name@), ..self@ }),
    {
        VectorAttributeBuilder { attribute_name: Some(name.to_owned()), dimensions: self.dimensions }
    }

    pub fn dimensions(self, dimensions: u32) -> (r: Self)
        ensures
            r@ == (VectorAttributeBuilderView { dimensions: Some(dimensions), ..self@ }),
    {
        VectorAttributeBuilder { attribute_name: self.attribute_name, dimensions: Some(dimensions) }
    }

    pub fn build(self) -> (r: Result<VectorAttribute, &'static str>)
        ensures
            result_view(r) == attribute_build_outcome(self@),
    {
        let attribute_name = match self.attribute_name {
            Some(n) => n,
            None => return Err("attribute_name is required"),
        };
        if attribute_name.as_str().is_empty() {
            return Err("attribute_name must not be empty");
        }
        let dimensions: u32 = match self.dimensions {
            Some(d) => d,
            None => return Err("dimensions is required"),
        };
        if dimensions == 0 {
            return Err("dimensions must be positive");
        }
        if dimensions > MAX_DIMENSIONS {
            return Err("dimensions must not exceed 16000");
        }
        Ok(VectorAttribute { attribute_name, dimensions })
    }
}

// ---------------------------------------------------------------------
// Index names
// ---------------------------------------------------------------------

/// A byte allowed in an index name: `[a-zA-Z0-9._-]`.
pub open spec fn is_index_name_byte(b: u8) -> bool {
    (48 <= b <= 57) || (65 <= b <= 90) || (97 <= b <= 122) || b == 46 || b == 95 || b == 45
}

/// The index-name rule: 3 to 192 bytes, each of `[a-zA-Z0-9._-]`, with the
/// error reported for the first rule broken.
pub open spec fn index_name_check(name: Seq<char>) -> Result<(), &'static str> {
    let bytes = vstd::utf8::encode_utf8(name);
    if name.len() == 0 {
        Err("index_name must not be empty")
    } else if !(3 <= bytes.len() <= 192) {
        Err("index_name must be between 3 and 192 characters")
    } else if !(forall|i: int| 0 <= i < bytes.len() ==> is_index_name_byte(#[trigger] bytes[i])) {
        Err("index_name must match [a-zA-Z0-9._-]+")
    } else {
        Ok(())
    }
}

fn is_index_name_byte_exec(b: u8) -> (r: bool)
    ensures
        r == is_index_name_byte(b),
{
    (48 <= b && b <= 57) || (65 <= b && b <= 90) || (97 <= b && b <= 122) || b == 46 || b == 95
        || b == 45
}

/// Validates an index name against the DynamoDB-style rule: 3-192 ASCII
/// characters matching `[a-zA-Z0-9._-]+`.
pub fn validate_index_name(name: &str) -> (r: Result<(), &'static str>)
    ensures
        r == index_name_check(name@),
{
    if name.is_empty() {
        return Err("index_name must not be empty");
    }
    let bytes = name.as_bytes();
    let len: usize = bytes.len();
    if !(3 <= len && len <= 192) {
        return Err("index_name must be between 3 and 192 characters");
    }
    let mut i: usize = 0;
    while i < bytes.len()
        invariant
            bytes@ == name.spec_bytes(),
            name@.len() != 0,
            3 <= bytes@.len() <= 192,
            0 <= i <= bytes@.len(),
            forall|k: int| 0 <= k < i ==> is_index_name_byte(#[trigger] bytes@[k]),
        decreases bytes@.len() - i,
    {
        if !is_index_name_byte_exec(bytes[i]) {
            assert(!is_index_name_byte(vstd::utf8::encode_utf8(name@)[i as int]));
            return Err("index_name must match [a-zA-Z0-9._-]+");
        }
        i = i + 1;
    }
    Ok(())
}

// ---------------------------------------------------------------------
// Projections
// ---------------------------------------------------------------------

/// Projection type for a vector index.
#[derive(Debug, Clone, PartialEq)]
pub enum ProjectionType {
    All,
    KeysOnly,
    Include(Vec<String>),
}

pub enum ProjectionView {
    All,
    KeysOnly,
    Include(Seq<Seq<char>>),
}

impl View for ProjectionType {
    type V = ProjectionView;

    open spec fn view(&self) -> ProjectionView {
        match self {
            ProjectionType::All => ProjectionView::All,
            ProjectionType::KeysOnly => ProjectionView::KeysOnly,
            ProjectionType::Include(attrs) => ProjectionView::Include(json::strings_view(attrs@)),
        }
    }
}

/// Projection configuration for a vector index.
///
/// A [VectorIndex] with no projection configured omits the `Projection`
/// field from the request entirely, so the server applies its own default.
/// This is distinct from explicitly requesting [ProjectionType::KeysOnly].
#[derive(Debug, Clone, PartialEq)]
pub struct Projection {
    pub projection_type: ProjectionType,
}

impl View for Projection {
    type V = ProjectionView;

    open spec fn view(&self) -> ProjectionView {
        self.projection_type@
    }
}

pub open spec fn projection_opt_view(p: Option<Projection>) -> Option<ProjectionView> {
    match p {
        Some(p) => Some(p@),
        None => None,
    }
}

impl Projection {
    pub fn all() -> (r: Self)
        ensures
            r@ == ProjectionView::All,
    {
        Projection { projection_type: ProjectionType::All }
    }

    pub fn keys_only() -> (r: Self)
        ensures
            r@ == ProjectionView::KeysOnly,
    {
        Projection { projection_type: ProjectionType::KeysOnly }
    }

    /// Projects the key attributes and the named non-key attributes.
    pub fn include_attributes(attributes: Vec<String>) -> (r: Self)
        ensures
            r@ == ProjectionView::Include(json::strings_view(attributes@)),
    {
        Projection { projection_type: ProjectionType::Include(attributes) }
    }
}

// ---------------------------------------------------------------------
// Vector indexes
// ---------------------------------------------------------------------

/// A vector index configuration for Alternator Vector Search.
///
/// The index automatically uses the base table's primary key schema
/// (HASH and optional RANGE). No `KeySchema` is specified here.
#[derive(Debug, Clone)]
pub struct VectorIndex {
    pub index_name: String,
    pub vector_attribute: VectorAttribute,
    /// When `None`, the `Projection` field is omitted from the request
    /// entirely and the server applies its own default projection.
    pub projection: Option<Projection>,
    pub similarity_function: Option<SimilarityFunction>,
    /// Response-only: the index's current status. Absent (`None`) for
    /// locally-built request values; populated when parsed from a
    /// `CreateTable`/`DescribeTable`/`UpdateTable` response.
    pub index_status: Option<IndexStatus>,
    /// Response-only: whether the index is still backfilling. Absent
    /// (`None`) for locally-built request values.
    pub backfilling: Option<bool>,
}

pub struct VectorIndexView {
    pub index_name: Seq<char>,
    pub vector_attribute: VectorAttributeView,
    pub projection: Option<ProjectionView>,
    pub similarity_function: Option<SimilarityFunction>,
    pub index_status: Option<IndexStatus>,
    pub backfilling: Option<bool>,
}

impl View for VectorIndex {
    type V = VectorIndexView;

    open spec fn view(&self) -> VectorIndexView {
        VectorIndexView {
            index_name: self.index_name@,
            vector_attribute: self.vector_attribute@,
            projection: projection_opt_view(self.projection),
            similarity_function: self.similarity_function,
            index_status: self.index_status,
            backfilling: self.backfilling,
        }
    }
}

impl VectorIndex {
    pub fn builder() -> (r: VectorIndexBuilder)
        ensures
            r@ == (VectorIndexBuilderView {
                index_name: None,
                vector_attribute: None,
                projection: None,
                similarity_function: None,
            }),
    {
        VectorIndexBuilder {
            index_name: None,
            vector_attribute: None,
            projection: None,
            similarity_function: None,
        }
    }
}

/// Builder for [VectorIndex].
#[derive(Debug)]
pub struct VectorIndexBuilder {
    index_name: Option<String>,
    vector_attribute: Option<VectorAttribute>,
    projection: Option<Projection>,
    similarity_function: Option<SimilarityFunction>,
}

pub struct VectorIndexBuilderView {
    pub index_name: Option<Seq<char>>,
    pub vector_attribute: Option<VectorAttributeView>,
    pub projection: Option<ProjectionView>,
    pub similarity_function: Option<SimilarityFunction>,
}

impl View for VectorIndexBuilder {
    type V = VectorIndexBuilderView;

    closed spec fn view(&self) -> VectorIndexBuilderView {
        VectorIndexBuilderView {
            index_name: match self.index_name {
                Some(n) => Some(n@),
                None => None,
            },
            vector_attribute: match self.vector_attribute {
                Some(a) => Some(a@),
                None => None,
            },
            projection: projection_opt_view(self.projection),
            similarity_function: self.similarity_function,
        }
    }
}

/// What [`VectorIndexBuilder::build`] gives for a builder in state `b`.
pub open spec fn index_build_outcome(b: VectorIndexBuilderView) -> Result<
    VectorIndexView,
    &'static str,
> {
    match b.index_name {
        None => Err("index_name is required"),
        Some(name) => match index_name_check(name) {
            Err(e) => Err(e),
            Ok(_) => match b.vector_attribute {
                None => Err("vector_attribute is required"),
                Some(va) => if va.dimensions == 0 {
                    Err("dimensions must be positive")
                } else {
                    Ok(
                        VectorIndexView {
                            index_name: name,
                            vector_attribute: va,
                            projection: b.projection,
                            similarity_function: b.similarity_function,
                            index_status: None,
                            backfilling: None,
                        },
                    )
                },
            },
        },
    }
}

impl Default for VectorIndexBuilder {
    fn default() -> (r: Self)
        ensures
            r@ == (VectorIndexBuilderView {
                index_name: None,
                vector_attribute: None,
                projection: None,
                similarity_function: None,
            }),
    {
        VectorIndexBuilder {
            index_name: None,
            vector_attribute: None,
            projection: None,
            similarity_function: None,
        }
    }
}

impl VectorIndexBuilder {
    pub fn index_name(self, name: &str) -> (r: Self)
        ensures
            r@ == (VectorIndexBuilderView { index_name: Some(name@), ..self@ }),
    {
        VectorIndexBuilder { index_name: Some(name.to_owned()), ..self }
    }

    pub fn vector_attribute(self, attr: VectorAttribute) -> (r: Self)
        ensures
            r@ == (VectorIndexBuilderView { vector_attribute: Some(attr@), ..self@ }),
    {
        VectorIndexBuilder { vector_attribute: Some(attr), ..self }
    }

    pub fn projection(self, projection: Projection) -> (r: Self)
        ensures
            r@ == (VectorIndexBuilderView { projection: Some(projection@), ..self@ }),
    {
        VectorIndexBuilder { projection: Some(projection), ..self }
    }

    pub fn similarity_function(self, func: SimilarityFunction) -> (r: Self)
        ensures
            r@ == (VectorIndexBuilderView { similarity_function: Some(func), ..self@ }),
    {
        VectorIndexBuilder { similarity_function: Some(func), ..self }
    }

    pub fn build(self) -> (r: Result<VectorIndex, &'static str>)
        ensures
            result_view(r) == index_build_outcome(self@),
    {
        let index_name = match self.index_name {
            Some(n) => n,
            None => return Err("index_name is required"),
        };
        match validate_index_name(index_name.as_str()) {
            Err(e) => return Err(e),
            Ok(()) => {},
        }
        let vector_attribute = match self.vector_attribute {
            Some(a) => a,
            None => return Err("vector_attribute is required"),
        };
        if vector_attribute.dimensions == 0 {
            return Err("dimensions must be positive");
        }
        Ok(
            VectorIndex {
                index_name,
                vector_attribute,
                projection: self.projection,
                similarity_function: self.similarity_function,
                index_status: None,
                backfilling: None,
            },
        )
    }
}

// ---------------------------------------------------------------------
// Request JSON for vector indexes
// ---------------------------------------------------------------------

/// A JSON object member list holding `key: v` when `v` is present and
/// nothing otherwise: how an absent optional field is serialized.
pub open spec fn optional_member(key: Seq<char>, v: Option<JsonView>) -> Seq<(Seq<char>, JsonView)> {
    match v {
        Some(v) => seq![(key, v)],
        None => Seq::empty(),
    }
}

/// The `VectorAttribute` member of a vector index's request JSON.
#[derive(Debug, Clone)]
pub struct VectorAttributeJson {
    pub attribute_name: String,
    pub dimensions: u32,
}

pub struct VectorAttributeJsonView {
    pub attribute_name: Seq<char>,
    pub dimensions: u32,
}

impl View for VectorAttributeJson {
    type V = VectorAttributeJsonView;

    open spec fn view(&self) -> VectorAttributeJsonView {
        VectorAttributeJsonView { attribute_name: self.attribute_name@, dimensions: self.dimensions }
    }
}

pub open spec fn attribute_json_value(a: VectorAttributeJsonView) -> JsonView {
    JsonView::Object(
        seq![
            ("AttributeName"@, JsonView::String(a.attribute_name)),
            ("Dimensions"@, JsonView::Number(json::decimal_text(a.dimensions as nat))),
        ],
    )
}

impl VectorAttributeJson {
    /// The serialized form: `{"AttributeName": .., "Dimensions": ..}`.
    pub fn to_json(&self) -> (r: JsonValue)
        ensures
            r@ == attribute_json_value(self@),
    {
        let mut members: Vec<(String, JsonValue)> = Vec::new();
        let name = JsonValue::String(self.attribute_name.clone());
        let dims = JsonValue::Number(json::decimal_string(self.dimensions as u64));
        members.push(("AttributeName".to_owned(), name));
        members.push(("Dimensions".to_owned(), dims));
        proof {
            assert(name@ == json::json_view(name));
            assert(dims@ == json::json_view(dims));
            json::lemma_object_view(members);
            assert(json::members_view(members@) =~= seq![
                ("AttributeName"@, JsonView::String(self.attribute_name@)),
                ("Dimensions"@, JsonView::Number(json::decimal_text(self.dimensions as nat))),
            ]);
        }
        JsonValue::Object(members)
    }
}

/// The `Projection` member of a vector index's request JSON.
#[derive(Debug, Clone)]
pub struct ProjectionJson {
    pub projection_type: String,
    pub non_key_attributes: Option<Vec<String>>,
}

pub struct ProjectionJsonView {
    pub projection_type: Seq<char>,
    pub non_key_attributes: Option<Seq<Seq<char>>>,
}

impl View for ProjectionJson {
    type V = ProjectionJsonView;

    open spec fn view(&self) -> ProjectionJsonView {
        ProjectionJsonView {
            projection_type: self.projection_type@,
            non_key_attributes: match self.non_key_attributes {
                Some(a) => Some(json::strings_view(a@)),
                None => None,
            },
        }
    }
}

pub open spec fn projection_json_value(p: ProjectionJsonView) -> JsonView {
    JsonView::Object(
        seq![("ProjectionType"@, JsonView::String(p.projection_type))] + optional_member(
            "NonKeyAttributes"@,
            match p.non_key_attributes {
                Some(a) => Some(json::string_array(a)),
                None => None,
            },
        ),
    )
}

impl ProjectionJson {
    /// The serialized form: `{"ProjectionType": .., "NonKeyAttributes": [..]}`,
    /// the latter only when present.
    pub fn to_json(&self) -> (r: JsonValue)
        ensures
            r@ == projection_json_value(self@),
    {
        let mut members: Vec<(String, JsonValue)> = Vec::new();
        let t = JsonValue::String(self.projection_type.clone());
        members.push(("ProjectionType".to_owned(), t));
        proof {
            assert(t@ == json::json_view(t));
        }
        match &self.non_key_attributes {
            Some(attrs) => {
                let a = json::string_array_json(attrs);
                members.push(("NonKeyAttributes".to_owned(), a));
            },
            None => {},
        }
        proof {
            json::lemma_object_view(members);
            assert(json::members_view(members@) =~= seq![
                ("ProjectionType"@, JsonView::String(self.projection_type@)),
            ] + optional_member(
                "NonKeyAttributes"@,
                match self@.non_key_attributes {
                    Some(a) => Some(json::string_array(a)),
                    None => None,
                },
            ));
        }
        JsonValue::Object(members)
    }
}

/// A vector index as it is sent in a request.
#[derive(Debug, Clone)]
pub struct VectorIndexJson {
    pub index_name: String,
    pub vector_attribute: VectorAttributeJson,
    pub projection: Option<ProjectionJson>,
    pub similarity_function: Option<String>,
}

pub struct VectorIndexJsonView {
    pub index_name: Seq<char>,
    pub vector_attribute: VectorAttributeJsonView,
    pub projection: Option<ProjectionJsonView>,
    pub similarity_function: Option<Seq<char>>,
}

impl View for VectorIndexJson {
    type V = VectorIndexJsonView;

    open spec fn view(&self) -> VectorIndexJsonView {
        VectorIndexJsonView {
            index_name: self.index_name@,
            vector_attribute: self.vector_attribute@,
            projection: match self.projection {
                Some(p) => Some(p@),
                None => None,
            },
            similarity_function: match self.similarity_function {
                Some(s) => Some(s@),
                None => None,
            },
        }
    }
}

/// The request form of a projection.
pub open spec fn projection_json_of(p: ProjectionView) -> ProjectionJsonView {
    match p {
        ProjectionView::All => ProjectionJsonView { projection_type: "ALL"@, non_key_attributes: None },
        ProjectionView::KeysOnly => ProjectionJsonView {
            projection_type: "KEYS_ONLY"@,
            non_key_attributes: None,
        },
        ProjectionView::Include(attrs) => ProjectionJsonView {
            projection_type: "INCLUDE"@,
            non_key_attributes: Some(attrs),
        },
    }
}

/// The request form of a vector index: its name, vector attribute,
/// projection and similarity function; status and backfilling are
/// response-only and left out.
pub open spec fn index_json_of(idx: VectorIndexView) -> VectorIndexJsonView {
    VectorIndexJsonView {
        index_name: idx.index_name,
        vector_attribute: VectorAttributeJsonView {
            attribute_name: idx.vector_attribute.attribute_name,
            dimensions: idx.vector_attribute.dimensions,
        },
        projection: match idx.projection {
            Some(p) => Some(projection_json_of(p)),
            None => None,
        },
        similarity_function: match idx.similarity_function {
            Some(f) => Some(similarity_name(f)),
            None => None,
        },
    }
}

/// The serialized form of a vector index request: members in the order
/// `IndexName`, `VectorAttribute`, `Projection`, `SimilarityFunction`, the
/// last two only when present.
pub open spec fn index_json_value(j: VectorIndexJsonView) -> JsonView {
    JsonView::Object(
        seq![
            ("IndexName"@, JsonView::String(j.index_name)),
            ("VectorAttribute"@, attribute_json_value(j.vector_attribute)),
        ] + optional_member(
            "Projection"@,
            match j.projection {
                Some(p) => Some(projection_json_value(p)),
                None => None,
            },
        ) + optional_member(
            "SimilarityFunction"@,
            match j.similarity_function {
                Some(s) => Some(JsonView::String(s)),
                None => None,
            },
        ),
    )
}

fn projection_to_json_form(p: &Projection) -> (r: ProjectionJson)
    ensures
        r@ == projection_json_of(p@),
{
    match &p.projection_type {
        ProjectionType::All => ProjectionJson {
            projection_type: "ALL".to_owned(),
            non_key_attributes: None,
        },
        ProjectionType::KeysOnly => ProjectionJson {
            projection_type: "KEYS_ONLY".to_owned(),
            non_key_attributes: None,
        },
        ProjectionType::Include(attrs) => ProjectionJson {
            projection_type: "INCLUDE".to_owned(),
            non_key_attributes: Some(json::clone_strings(attrs)),
        },
    }
}

impl<'a> From<&'a VectorIndex> for VectorIndexJson {
    fn from(idx: &'a VectorIndex) -> (r: Self)
        ensures
            r@ == index_json_of(idx@),
    {
        let projection = match &idx.projection {
            Some(p) => Some(projection_to_json_form(p)),
            None => None,
        };
        let similarity_function = match idx.similarity_function {
            Some(f) => Some(f.as_str().to_owned()),
            None => None,
        };
        VectorIndexJson {
            index_name: idx.index_name.clone(),
            projection,
            vector_attribute: VectorAttributeJson {
                attribute_name: idx.vector_attribute.attribute_name.clone(),
                dimensions: idx.vector_attribute.dimensions,
            },
            similarity_function,
        }
    }
}

impl<'a> vstd::std_specs::convert::FromSpecImpl<&'a VectorIndex> for VectorIndexJson {
    /// The built value is described by view in `from`'s own contract, not by
    /// spec equality, since equal text in two `String`s is not spec equality.
    open spec fn obeys_from_spec() -> bool {
        false
    }

    open spec fn from_spec(idx: &'a VectorIndex) -> Self {
        vstd::pervasive::arbitrary()
    }
}

impl VectorIndexJson {
    /// The serialized request form of this vector index.
    pub fn to_json(&self) -> (r: JsonValue)
        ensures
            r@ == index_json_value(self@),
    {
        let mut members: Vec<(String, JsonValue)> = Vec::new();
        let name = JsonValue::String(self.index_name.clone());
        let va = self.vector_attribute.to_json();
        members.push(("IndexName".to_owned(), name));
        members.push(("VectorAttribute".to_owned(), va));
        proof {
            assert(name@ == json::json_view(name));
        }
        match &self.projection {
            Some(p) => {
                let pj = p.to_json();
                members.push(("Projection".to_owned(), pj));
            },
            None => {},
        }
        match &self.similarity_function {
            Some(f) => {
                let fj = JsonValue::String(f.clone());
                proof {
                    assert(fj@ == json::json_view(fj));
                }
                members.push(("SimilarityFunction".to_owned(), fj));
            },
            None => {},
        }
        proof {
            json::lemma_object_view(members);
            assert(json::members_view(members@) =~= seq![
                ("IndexName"@, JsonView::String(self.index_name@)),
                ("VectorAttribute"@, attribute_json_value(self.vector_attribute@)),
            ] + optional_member(
                "Projection"@,
                match self@.projection {
                    Some(p) => Some(projection_json_value(p)),
                    None => None,
                },
            ) + optional_member(
                "SimilarityFunction"@,
                match self@.similarity_function {
                    Some(s) => Some(JsonView::String(s)),
                    None => None,
                },
            ));
        }
        JsonValue::Object(members)
    }
}

// ---------------------------------------------------------------------
// Vector indexes in response JSON
// ---------------------------------------------------------------------

/// Member `key` of `v` when it is a string.
pub open spec fn member_str(v: JsonView, key: Seq<char>) -> Option<Seq<char>> {
    match json::json_get(v, key) {
        Some(x) => json::json_as_str(x),
        None => None,
    }
}

/// The strings among `items`, in order; other values are skipped.
pub open spec fn string_items(items: Seq<JsonView>) -> Seq<Seq<char>>
    decreases items.len(),
{
    if items.len() == 0 {
        Seq::empty()
    } else {
        string_items(items.drop_last()) + match items.last() {
            JsonView::String(s) => seq![s],
            _ => Seq::empty(),
        }
    }
}

/// The projection described by a response's `Projection` member: `None`
/// when absent, untyped or of an unknown type; an `INCLUDE` projection
/// takes the string entries of `NonKeyAttributes`, none when that member
/// is absent or not an array.
pub open spec fn projection_from_json(p: Option<JsonView>) -> Option<ProjectionView> {
    match p {
        None => None,
        Some(p) => match member_str(p, "ProjectionType"@) {
            None => None,
            Some(t) => if t == "ALL"@ {
                Some(ProjectionView::All)
            } else if t == "KEYS_ONLY"@ {
                Some(ProjectionView::KeysOnly)
            } else if t == "INCLUDE"@ {
                Some(
                    ProjectionView::Include(
                        match json::json_get(p, "NonKeyAttributes"@) {
                            Some(JsonView::Array(items)) => string_items(items),
                            _ => Seq::empty(),
                        },
                    ),
                )
            } else {
                None
            },
        },
    }
}

/// The vector index a response entry describes. It needs a string
/// `IndexName` and a `VectorAttribute` with a string `AttributeName` and a
/// `Dimensions` that fits `u32`; everything else is optional, and an
/// unrecognized optional value reads as absent.
pub open spec fn index_from_json(v: JsonView) -> Option<VectorIndexView> {
    match member_str(v, "IndexName"@) {
        None => None,
        Some(name) => match json::json_get(v, "VectorAttribute"@) {
            None => None,
            Some(va) => match (member_str(va, "AttributeName"@), json::json_get(va, "Dimensions"@)) {
                (Some(attribute_name), Some(d)) => match json::json_as_u64(d) {
                    Some(d) => if d <= u32::MAX {
                        Some(
                            VectorIndexView {
                                index_name: name,
                                vector_attribute: VectorAttributeView {
                                    attribute_name,
                                    dimensions: d as u32,
                                },
                                projection: projection_from_json(json::json_get(v, "Projection"@)),
                                similarity_function: match member_str(v, "SimilarityFunction"@) {
                                    Some(s) => similarity_from_name(s),
                                    None => None,
                                },
                                index_status: match member_str(v, "IndexStatus"@) {
                                    Some(s) => index_status_from_name(s),
                                    None => None,
                                },
                                backfilling: match json::json_get(v, "Backfilling"@) {
                                    Some(b) => json::json_as_bool(b),
                                    None => None,
                                },
                            },
                        )
                    } else {
                        None
                    },
                    None => None,
                },
                _ => None,
            },
        },
    }
}

pub open spec fn index_opt_view(r: Option<VectorIndex>) -> Option<VectorIndexView> {
    match r {
        Some(idx) => Some(idx@),
        None => None,
    }
}

fn string_items_exec(items: &Vec<JsonValue>) -> (r: Vec<String>)
    ensures
        json::strings_view(r@) == string_items(json::values_view(items@)),
{
    let ghost all = json::values_view(items@);
    let mut out: Vec<String> = Vec::new();
    let mut i: usize = 0;
    assert(all.take(0) =~= Seq::<JsonView>::empty());
    assert(json::strings_view(out@) =~= Seq::<Seq<char>>::empty());
    while i < items.len()
        invariant
            all == json::values_view(items@),
            0 <= i <= items@.len(),
            json::strings_view(out@) == string_items(all.take(i as int)),
        decreases items@.len() - i,
    {
        let ghost prev = out@;
        assert(all.take(i + 1).drop_last() =~= all.take(i as int));
        assert(all.take(i + 1).last() == items@[i as int]@);
        match items[i].as_str() {
            Some(s) => {
                out.push(s.to_owned());
                assert(json::strings_view(out@) =~= json::strings_view(prev) + seq![s@]);
            },
            None => {
                assert(string_items(all.take(i + 1)) =~= string_items(all.take(i as int)));
            },
        }
        i = i + 1;
    }
    assert(all.take(items@.len() as int) =~= all);
    out
}

fn no_strings() -> (r: Vec<String>)
    ensures
        json::strings_view(r@) == Seq::<Seq<char>>::empty(),
{
    let r: Vec<String> = Vec::new();
    assert(json::strings_view(r@) =~= Seq::<Seq<char>>::empty());
    r
}

fn projection_from_json_exec(p: &JsonValue) -> (r: Option<Projection>)
    ensures
        projection_opt_view(r) == projection_from_json(Some(p@)),
{
    let t = match p.get("ProjectionType") {
        Some(t) => match t.as_str() {
            Some(t) => t,
            None => return None,
        },
        None => return None,
    };
    if str_eq(t, "ALL") {
        Some(Projection::all())
    } else if str_eq(t, "KEYS_ONLY") {
        Some(Projection::keys_only())
    } else if str_eq(t, "INCLUDE") {
        let attrs = match p.get("NonKeyAttributes") {
            Some(a) => match a.as_array() {
                Some(arr) => string_items_exec(arr),
                None => no_strings(),
            },
            None => no_strings(),
        };
        Some(Projection::include_attributes(attrs))
    } else {
        None
    }
}

/// Parses a `VectorIndex` response entry (as found under `Table.VectorIndexes`
/// or `TableDescription.VectorIndexes`) from raw JSON, including
/// response-only `IndexStatus` and `Backfilling` fields.
pub fn vector_index_from_json(value: &JsonValue) -> (r: Option<VectorIndex>)
    ensures
        index_opt_view(r) == index_from_json(value@),
{
    let index_name = match value.get("IndexName") {
        Some(v) => match v.as_str() {
            Some(s) => s.to_owned(),
            None => return None,
        },
        None => return None,
    };
    let va = match value.get("VectorAttribute") {
        Some(va) => va,
        None => return None,
    };
    let attribute_name = match va.get("AttributeName") {
        Some(v) => match v.as_str() {
            Some(s) => s.to_owned(),
            None => return None,
        },
        None => return None,
    };
    let dimensions_raw: u64 = match va.get("Dimensions") {
        Some(v) => match v.as_u64() {
            Some(d) => d,
            None => return None,
        },
        None => return None,
    };
    if dimensions_raw > 0xFFFF_FFFFu64 {
        return None;
    }
    let dimensions: u32 = dimensions_raw as u32;
    let projection = match value.get("Projection") {
        Some(p) => projection_from_json_exec(p),
        None => None,
    };
    let similarity_function = match value.get("SimilarityFunction") {
        Some(v) => match v.as_str() {
            Some(s) => parse_similarity_function(s),
            None => None,
        },
        None => None,
    };
    let index_status = match value.get("IndexStatus") {
        Some(v) => match v.as_str() {
            Some(s) => IndexStatus::from_str(s),
            None => None,
        },
        None => None,
    };
    let backfilling = match value.get("Backfilling") {
        Some(b) => b.as_bool(),
        None => None,
    };
    Some(
        VectorIndex {
            index_name,
            vector_attribute: VectorAttribute { attribute_name, dimensions },
            projection,
            similarity_function,
            index_status,
            backfilling,
        },
    )
}

// ---------------------------------------------------------------------
// Vector index updates
// ---------------------------------------------------------------------

/// A single vector-index change for `UpdateTable.VectorIndexUpdates`.
#[derive(Debug, Clone)]
pub enum VectorIndexUpdate {
    Create(VectorIndex),
    Delete { index_name: String },
}

pub enum VectorIndexUpdateView {
    Create(VectorIndexView),
    Delete { index_name: Seq<char> },
}

impl View for VectorIndexUpdate {
    type V = VectorIndexUpdateView;

    open spec fn view(&self) -> VectorIndexUpdateView {
        match self {
            VectorIndexUpdate::Create(idx) => VectorIndexUpdateView::Create(idx@),
            VectorIndexUpdate::Delete { index_name } => VectorIndexUpdateView::Delete {
                index_name: index_name@,
            },
        }
    }
}

/// The `Delete` member of an index update's request JSON.
#[derive(Debug, Clone)]
pub struct VectorIndexDeleteJson {
    pub index_name: String,
}

/// An index update as it is sent in a request: exactly one of the two
/// members is present.
#[derive(Debug, Clone)]
pub struct VectorIndexUpdateJson {
    pub create: Option<VectorIndexJson>,
    pub delete: Option<VectorIndexDeleteJson>,
}

pub struct VectorIndexUpdateJsonView {
    pub create: Option<VectorIndexJsonView>,
    /// The name of the index to delete.
    pub delete: Option<Seq<char>>,
}

impl View for VectorIndexUpdateJson {
    type V = VectorIndexUpdateJsonView;

    open spec fn view(&self) -> VectorIndexUpdateJsonView {
        VectorIndexUpdateJsonView {
            create: match self.create {
                Some(c) => Some(c@),
                None => None,
            },
            delete: match self.delete {
                Some(d) => Some(d.index_name@),
                None => None,
            },
        }
    }
}

/// The request form of an index update.
pub open spec fn update_json_of(u: VectorIndexUpdateView) -> VectorIndexUpdateJsonView {
    match u {
        VectorIndexUpdateView::Create(idx) => VectorIndexUpdateJsonView {
            create: Some(index_json_of(idx)),
            delete: None,
        },
        VectorIndexUpdateView::Delete { index_name } => VectorIndexUpdateJsonView {
            create: None,
            delete: Some(index_name),
        },
    }
}

/// The serialized form of an index update: `Create` then `Delete`, each only
/// when present; a deletion names its index as `{"IndexName": ..}`.
pub open spec fn update_json_value(u: VectorIndexUpdateJsonView) -> JsonView {
    JsonView::Object(
        optional_member(
            "Create"@,
            match u.create {
                Some(c) => Some(index_json_value(c)),
                None => None,
            },
        ) + optional_member(
            "Delete"@,
            match u.delete {
                Some(name) => Some(JsonView::Object(seq![("IndexName"@, JsonView::String(name))])),
                None => None,
            },
        ),
    )
}

impl<'a> From<&'a VectorIndexUpdate> for VectorIndexUpdateJson {
    fn from(update: &'a VectorIndexUpdate) -> (r: Self)
        ensures
            r@ == update_json_of(update@),
    {
        match update {
            VectorIndexUpdate::Create(idx) => VectorIndexUpdateJson {
                create: Some(VectorIndexJson::from(idx)),
                delete: None,
            },
            VectorIndexUpdate::Delete { index_name } => VectorIndexUpdateJson {
                create: None,
                delete: Some(VectorIndexDeleteJson { index_name: index_name.clone() }),
            },
        }
    }
}

impl<'a> vstd::std_specs::convert::FromSpecImpl<&'a VectorIndexUpdate> for VectorIndexUpdateJson {
    /// The built value is described by view in `from`'s own contract.
    open spec fn obeys_from_spec() -> bool {
        false
    }

    open spec fn from_spec(update: &'a VectorIndexUpdate) -> Self {
        vstd::pervasive::arbitrary()
    }
}

impl VectorIndexUpdateJson {
    /// The serialized request form of this update.
    pub fn to_json(&self) -> (r: JsonValue)
        ensures
            r@ == update_json_value(self@),
    {
        let mut members: Vec<(String, JsonValue)> = Vec::new();
        match &self.create {
            Some(c) => {
                members.push(("Create".to_owned(), c.to_json()));
            },
            None => {},
        }
        match &self.delete {
            Some(d) => {
                let name = JsonValue::String(d.index_name.clone());
                assert(name@ == json::json_view(name));
                let mut inner: Vec<(String, JsonValue)> = Vec::new();
                inner.push(("IndexName".to_owned(), name));
                proof {
                    json::lemma_object_view(inner);
                    assert(json::members_view(inner@) =~= seq![
                        ("IndexName"@, JsonView::String(d.index_name@)),
                    ]);
                }
                members.push(("Delete".to_owned(), JsonValue::Object(inner)));
            },
            None => {},
        }
        proof {
            json::lemma_object_view(members);
            assert(json::members_view(members@) =~= optional_member(
                "Create"@,
                match self@.create {
                    Some(c) => Some(index_json_value(c)),
                    None => None,
                },
            ) + optional_member(
                "Delete"@,
                match self@.delete {
                    Some(name) => Some(
                        JsonView::Object(seq![("IndexName"@, JsonView::String(name))]),
                    ),
                    None => None,
                },
            ));
        }
        JsonValue::Object(members)
    }
}

// ---------------------------------------------------------------------
// Vector search
// ---------------------------------------------------------------------

/// Score reporting mode for a [VectorSearch] query.
#[derive(Debug, Clone, Copy, PartialEq, Eq, Structural)]
pub enum ReturnScores {
    /// Request similarity scores alongside query results.
    Similarity,
}

pub open spec fn return_scores_name(r: ReturnScores) -> Seq<char> {
    match r {
        ReturnScores::Similarity => "SIMILARITY"@,
    }
}

impl ReturnScores {
    pub fn as_str(&self) -> (r: &'static str)
        ensures
            r@ == return_scores_name(*self),
    {
        match self {
            ReturnScores::Similarity => "SIMILARITY",
        }
    }
}

/// Whether `bits`, the IEEE-754 single-precision encoding of a number, is
/// finite: its exponent is not all ones (which marks infinities and NaNs).
pub open spec fn float32_bits_finite(bits: u32) -> bool {
    bits & 0x7f80_0000u32 != 0x7f80_0000u32
}

/// The four bytes of `w`, least significant first.
pub open spec fn u32_le_bytes(w: u32) -> Seq<u8> {
    seq![
        (w & 0xffu32) as u8,
        ((w >> 8u32) & 0xffu32) as u8,
        ((w >> 16u32) & 0xffu32) as u8,
        ((w >> 24u32) & 0xffu32) as u8,
    ]
}

/// The compact encoding of a single-precision vector: each component's
/// IEEE-754 bits as four little-endian bytes, in order.
pub open spec fn float32_vector_bytes(bits: Seq<u32>) -> Seq<u8>
    decreases bits.len(),
{
    if bits.len() == 0 {
        Seq::empty()
    } else {
        float32_vector_bytes(bits.drop_last()) + u32_le_bytes(bits.last())
    }
}

/// Vector-search extras for `Query.VectorSearch`.
///
/// The query vector is stored as an [`AttributeValue`]: either the compact
/// binary form built by [`VectorSearch::from_float32_bits`], or a standard
/// `AttributeValue::L` of numeric (`N`) values built by
/// [`VectorSearch::from_query_vector`].
#[derive(Debug, Clone, PartialEq)]
pub struct VectorSearch {
    pub(crate) query_vector: AttributeValue,
    pub return_scores: Option<ReturnScores>,
}

pub struct VectorSearchView {
    pub query_vector: AttributeValueView,
    pub return_scores: Option<ReturnScores>,
}

impl View for VectorSearch {
    type V = VectorSearchView;

    closed spec fn view(&self) -> VectorSearchView {
        VectorSearchView { query_vector: self.query_vector@, return_scores: self.return_scores }
    }
}

impl VectorSearch {
    /// The view's score request is the search's `return_scores` field. The
    /// view itself stays closed, and this holds inside the crate only: the
    /// query vector is private to the crate, so that only the checking
    /// constructors set it, which makes the type opaque to specifications
    /// outside it.
    pub(crate) proof fn lemma_view_return_scores(&self)
        ensures
            self@.return_scores == self.return_scores,
    {
    }
}

/// A numeric (`N`) attribute value.
pub open spec fn is_number_value(v: AttributeValueView) -> bool {
    v is N
}

/// What [`VectorSearch::from_float32_bits`] gives for the component bits `bits`.
pub open spec fn float32_search_outcome(bits: Seq<u32>) -> Result<VectorSearchView, &'static str> {
    if bits.len() == 0 {
        Err("query vector must not be empty")
    } else if exists|i: int| 0 <= i < bits.len() && !float32_bits_finite(#[trigger] bits[i]) {
        Err("query vector must contain only finite values")
    } else {
        Ok(
            VectorSearchView {
                query_vector: AttributeValueView::B(float32_vector_bytes(bits)),
                return_scores: None,
            },
        )
    }
}

/// What [`VectorSearch::from_query_vector`] gives for the values `values`.
pub open spec fn list_search_outcome(values: Seq<AttributeValueView>) -> Result<
    VectorSearchView,
    &'static str,
> {
    if values.len() == 0 {
        Err("query vector must not be empty")
    } else if !(forall|i: int| 0 <= i < values.len() ==> is_number_value(#[trigger] values[i])) {
        Err("query vector list must contain only numeric (N) values")
    } else {
        Ok(VectorSearchView { query_vector: AttributeValueView::L(values), return_scores: None })
    }
}

impl VectorSearch {
    /// Creates a [VectorSearch] with a compact single-precision query vector
    /// given by the IEEE-754 bits of its components, and no score reporting.
    /// Returns an error if the vector is empty or has a non-finite component.
    pub fn from_float32_bits(bits: Vec<u32>) -> (r: Result<Self, &'static str>)
        ensures
            result_view(r) == float32_search_outcome(bits@),
    {
        if bits.len() == 0 {
            return Err("query vector must not be empty");
        }
        let mut bytes: Vec<u8> = Vec::new();
        let mut i: usize = 0;
        while i < bits.len()
            invariant
                0 <= i <= bits@.len(),
                bytes@ == float32_vector_bytes(bits@.take(i as int)),
                forall|k: int| 0 <= k < i ==> float32_bits_finite(#[trigger] bits@[k]),
            decreases bits@.len() - i,
        {
            let w: u32 = bits[i];
            if w & 0x7f80_0000u32 == 0x7f80_0000u32 {
                assert(!float32_bits_finite(bits@[i as int]));
                return Err("query vector must contain only finite values");
            }
            bytes.push((w & 0xffu32) as u8);
            bytes.push(((w >> 8u32) & 0xffu32) as u8);
            bytes.push(((w >> 16u32) & 0xffu32) as u8);
            bytes.push(((w >> 24u32) & 0xffu32) as u8);
            assert(bits@.take(i + 1).drop_last() =~= bits@.take(i as int));
            assert(bytes@ =~= float32_vector_bytes(bits@.take(i as int)) + u32_le_bytes(w));
            i = i + 1;
        }
        assert(bits@.take(bits@.len() as int) =~= bits@);
        let query_vector = AttributeValue::B(bytes);
        assert(query_vector@ == attribute_value::attribute_view(query_vector));
        Ok(VectorSearch { query_vector, return_scores: None })
    }

    /// Creates a [VectorSearch] with a standard DynamoDB `AttributeValue::L`
    /// query vector, i.e. a list of `AttributeValue::N` values, matching the
    /// shape a non-preserving read returns. Returns an error if `values` is
    /// empty or contains a non-numeric member.
    pub fn from_query_vector(values: Vec<AttributeValue>) -> (r: Result<Self, &'static str>)
        ensures
            result_view(r) == list_search_outcome(attribute_value::attributes_view(values@)),
    {
        if values.len() == 0 {
            return Err("query vector must not be empty");
        }
        let mut i: usize = 0;
        while i < values.len()
            invariant
                0 <= i <= values@.len(),
                forall|k: int| 0 <= k < i ==> (#[trigger] values@[k]) is N,
            decreases values@.len() - i,
        {
            match &values[i] {
                AttributeValue::N(_) => {},
                _ => {
                    proof {
                        let v = values@[i as int];
                        assert(v@ == attribute_value::attribute_view(v));
                        assert(!is_number_value(attribute_value::attributes_view(values@)[i as int]));
                    }
                    return Err("query vector list must contain only numeric (N) values");
                },
            }
            i = i + 1;
        }
        proof {
            assert forall|k: int| 0 <= k < values@.len() implies is_number_value(
                #[trigger] attribute_value::attributes_view(values@)[k],
            ) by {
                let v = values@[k];
                assert(v@ == attribute_value::attribute_view(v));
            }
            attribute_value::lemma_list_view(values);
        }
        Ok(VectorSearch { query_vector: AttributeValue::L(values), return_scores: None })
    }

    pub fn with_return_scores(self, return_scores: ReturnScores) -> (r: Self)
        ensures
            r@ == (VectorSearchView { return_scores: Some(return_scores), ..self@ }),
    {
        VectorSearch { query_vector: self.query_vector, return_scores: Some(return_scores) }
    }
}

/// A vector search as it is sent in a request.
#[derive(Debug)]
pub struct VectorSearchJson {
    pub query_vector: JsonValue,
    pub return_scores: Option<String>,
}

pub struct VectorSearchJsonView {
    pub query_vector: JsonView,
    pub return_scores: Option<Seq<char>>,
}

impl View for VectorSearchJson {
    type V = VectorSearchJsonView;

    open spec fn view(&self) -> VectorSearchJsonView {
        VectorSearchJsonView {
            query_vector: self.query_vector@,
            return_scores: match self.return_scores {
                Some(s) => Some(s@),
                None => None,
            },
        }
    }
}

/// The request form of a vector search: the query vector in DynamoDB JSON
/// and the score mode by name.
pub open spec fn search_json_of(s: VectorSearchView) -> VectorSearchJsonView {
    VectorSearchJsonView {
        query_vector: attribute_value::attribute_json(s.query_vector),
        return_scores: match s.return_scores {
            Some(r) => Some(return_scores_name(r)),
            None => None,
        },
    }
}

/// The serialized form of a vector search: `QueryVector`, then
/// `ReturnScores` only when present.
pub open spec fn search_json_value(j: VectorSearchJsonView) -> JsonView {
    JsonView::Object(
        seq![("QueryVector"@, j.query_vector)] + optional_member(
            "ReturnScores"@,
            match j.return_scores {
                Some(s) => Some(JsonView::String(s)),
                None => None,
            },
        ),
    )
}

impl<'a> From<&'a VectorSearch> for VectorSearchJson {
    fn from(search: &'a VectorSearch) -> (r: Self)
        ensures
            r@ == search_json_of(search@),
    {
        let return_scores = match search.return_scores {
            Some(s) => Some(s.as_str().to_owned()),
            None => None,
        };
        VectorSearchJson {
            query_vector: attribute_value_to_json(&search.query_vector),
            return_scores,
        }
    }
}

impl<'a> vstd::std_specs::convert::FromSpecImpl<&'a VectorSearch> for VectorSearchJson {
    /// The built value is described by view in `from`'s own contract.
    open spec fn obeys_from_spec() -> bool {
        false
    }

    open spec fn from_spec(search: &'a VectorSearch) -> Self {
        vstd::pervasive::arbitrary()
    }
}

impl VectorSearchJson {
    /// The serialized request form of this vector search.
    pub fn to_json(self) -> (r: JsonValue)
        ensures
            r@ == search_json_value(self@),
    {
        let ghost old_view = self@;
        let mut members: Vec<(String, JsonValue)> = Vec::new();
        members.push(("QueryVector".to_owned(), self.query_vector));
        match self.return_scores {
            Some(s) => {
                let j = JsonValue::String(s);
                assert(j@ == json::json_view(j));
                members.push(("ReturnScores".to_owned(), j));
            },
            None => {},
        }
        proof {
            json::lemma_object_view(members);
            assert(json::members_view(members@) =~= seq![
                ("QueryVector"@, old_view.query_vector),
            ] + optional_member(
                "ReturnScores"@,
                match old_view.return_scores {
                    Some(s) => Some(JsonView::String(s)),
                    None => None,
                },
            ));
        }
        JsonValue::Object(members)
    }
}

// ---------------------------------------------------------------------
// Laws of the request and response forms
// ---------------------------------------------------------------------

/// A similarity function is read back from its wire name.
pub proof fn lemma_similarity_name_roundtrip(f: SimilarityFunction)
    ensures
        similarity_from_name(similarity_name(f)) == Some(f),
{
    reveal_strlit("COSINE");
    reveal_strlit("EUCLIDEAN");
    reveal_strlit("DOT_PRODUCT");
    assert("COSINE"@.len() == 6);
    assert("EUCLIDEAN"@.len() == 9);
    assert("DOT_PRODUCT"@.len() == 11);
}

/// The strings of a JSON array of strings are the strings it was made of.
pub proof fn lemma_string_items_of_string_values(items: Seq<Seq<char>>)
    ensures
        string_items(json::string_values(items)) == items,
    decreases items.len(),
{
    if items.len() > 0 {
        assert(json::string_values(items).drop_last() =~= json::string_values(items.drop_last()));
        lemma_string_items_of_string_values(items.drop_last());
        assert(items =~= items.drop_last() + seq![items.last()]);
    } else {
        assert(items =~= Seq::<Seq<char>>::empty());
    }
}

/// A projection is read back from its request form.
pub proof fn lemma_projection_json_roundtrip(p: ProjectionView)
    ensures
        projection_from_json(Some(projection_json_value(projection_json_of(p)))) == Some(p),
{
    reveal_strlit("ALL");
    reveal_strlit("KEYS_ONLY");
    reveal_strlit("INCLUDE");
    reveal_strlit("ProjectionType");
    reveal_strlit("NonKeyAttributes");
    assert("ALL"@.len() == 3);
    assert("KEYS_ONLY"@.len() == 9);
    assert("INCLUDE"@.len() == 7);
    assert("ProjectionType"@.len() == 14);
    assert("NonKeyAttributes"@.len() == 16);
    let j = projection_json_of(p);
    let v = projection_json_value(j);
    let members = seq![("ProjectionType"@, JsonView::String(j.projection_type))] + optional_member(
        "NonKeyAttributes"@,
        match j.non_key_attributes {
            Some(a) => Some(json::string_array(a)),
            None => None,
        },
    );
    assert(v == JsonView::Object(members));
    assert(members[0] == ("ProjectionType"@, JsonView::String(j.projection_type)));
    assert(json::json_get(v, "ProjectionType"@) == Some(JsonView::String(j.projection_type)));
    if let ProjectionView::Include(attrs) = p {
        assert(members[1] == ("NonKeyAttributes"@, json::string_array(attrs)));
        assert(json::lookup_from(members, "NonKeyAttributes"@, 2) is None);
        assert(json::lookup_from(members, "NonKeyAttributes"@, 1) == Some(json::string_array(attrs)));
        assert(json::json_get(v, "NonKeyAttributes"@) == Some(json::string_array(attrs)));
        lemma_string_items_of_string_values(attrs);
    }
}

/// What each member lookup gives on the request form of a vector index:
/// the members it is written with, and none of the response-only ones nor
/// a `KeySchema`.
pub proof fn lemma_index_json_value_lookups(j: VectorIndexJsonView)
    ensures
        ({
            let v = index_json_value(j);
            &&& json::json_get(v, "IndexName"@) == Some(JsonView::String(j.index_name))
            &&& json::json_get(v, "VectorAttribute"@) == Some(
                attribute_json_value(j.vector_attribute),
            )
            &&& json::json_get(v, "Projection"@) == match j.projection {
                Some(p) => Some(projection_json_value(p)),
                None => None,
            }
            &&& json::json_get(v, "SimilarityFunction"@) == match j.similarity_function {
                Some(s) => Some(JsonView::String(s)),
                None => None,
            }
            &&& json::json_get(v, "IndexStatus"@) is None
            &&& json::json_get(v, "Backfilling"@) is None
            &&& json::json_get(v, "KeySchema"@) is None
        }),
{
    reveal_strlit("IndexName");
    reveal_strlit("VectorAttribute");
    reveal_strlit("Projection");
    reveal_strlit("SimilarityFunction");
    reveal_strlit("IndexStatus");
    reveal_strlit("Backfilling");
    reveal_strlit("KeySchema");
    assert("IndexName"@.len() == 9);
    assert("VectorAttribute"@.len() == 15);
    assert("Projection"@.len() == 10);
    assert("SimilarityFunction"@.len() == 18);
    assert("IndexStatus"@.len() == 11);
    assert("Backfilling"@.len() == 11);
    assert("KeySchema"@.len() == 9);
    assert("KeySchema"@[0] != "IndexName"@[0]);
    let pm = optional_member(
        "Projection"@,
        match j.projection {
            Some(p) => Some(projection_json_value(p)),
            None => None,
        },
    );
    let sm = optional_member(
        "SimilarityFunction"@,
        match j.similarity_function {
            Some(s) => Some(JsonView::String(s)),
            None => None,
        },
    );
    let m = seq![
        ("IndexName"@, JsonView::String(j.index_name)),
        ("VectorAttribute"@, attribute_json_value(j.vector_attribute)),
    ] + pm + sm;
    assert(index_json_value(j) == JsonView::Object(m));
    let np = pm.len() as int;
    assert(m.len() == 2 + np + sm.len());
    assert(m[0].0 == "IndexName"@);
    assert(m[1].0 == "VectorAttribute"@);
    assert(forall|k: int| 2 <= k < 2 + np ==> (#[trigger] m[k]).0 == "Projection"@);
    assert(forall|k: int| 2 + np <= k < m.len() ==> (#[trigger] m[k]).0 == "SimilarityFunction"@);
    json::lemma_lookup_found(m, "IndexName"@, 0);
    json::lemma_lookup_found(m, "VectorAttribute"@, 1);
    json::lemma_lookup_absent(m, "IndexStatus"@, 0);
    json::lemma_lookup_absent(m, "Backfilling"@, 0);
    json::lemma_lookup_absent(m, "KeySchema"@, 0);
    if j.projection is Some {
        json::lemma_lookup_found(m, "Projection"@, 2);
    } else {
        json::lemma_lookup_absent(m, "Projection"@, 0);
    }
    if j.similarity_function is Some {
        json::lemma_lookup_found(m, "SimilarityFunction"@, 2 + np);
    } else {
        json::lemma_lookup_absent(m, "SimilarityFunction"@, 0);
    }
}

/// Reading back the request form of a vector index gives the same index,
/// for every index without the response-only status and backfilling
/// fields (which the request form leaves out).
pub proof fn lemma_index_json_roundtrip(idx: VectorIndexView)
    requires
        idx.index_status is None,
        idx.backfilling is None,
    ensures
        index_from_json(index_json_value(index_json_of(idx))) == Some(idx),
{
    reveal_strlit("AttributeName");
    reveal_strlit("Dimensions");
    assert("AttributeName"@.len() == 13);
    assert("Dimensions"@.len() == 10);
    let j = index_json_of(idx);
    lemma_index_json_value_lookups(j);
    if let Some(p) = idx.projection {
        lemma_projection_json_roundtrip(p);
    }
    if let Some(f) = idx.similarity_function {
        lemma_similarity_name_roundtrip(f);
    }
    json::lemma_decimal_u64_roundtrip(idx.vector_attribute.dimensions as u64);
    let va = attribute_json_value(j.vector_attribute);
    if let JsonView::Object(vm) = va {
        json::lemma_lookup_found(vm, "AttributeName"@, 0);
        json::lemma_lookup_found(vm, "Dimensions"@, 1);
    }
}

/// Every vector index the builder accepts is read back from its request form.
pub proof fn lemma_built_index_json_roundtrip(b: VectorIndexBuilderView)
    ensures
        match index_build_outcome(b) {
            Ok(idx) => index_from_json(index_json_value(index_json_of(idx))) == Some(idx),
            Err(_) => true,
        },
{
    if let Ok(idx) = index_build_outcome(b) {
        lemma_index_json_roundtrip(idx);
    }
}

/// What the request form of a vector index holds: its `IndexName` always;
/// `Projection` exactly when a projection is configured (an unconfigured one
/// is omitted so that the server applies its default, which differs from
/// sending `KEYS_ONLY`); `SimilarityFunction` exactly when one is chosen;
/// never the response-only `IndexStatus` and `Backfilling`, nor a
/// `KeySchema`, which the index takes from its table.
pub proof fn lemma_index_json_members(idx: VectorIndexView)
    ensures
        ({
            let v = index_json_value(index_json_of(idx));
            &&& json::json_get(v, "IndexName"@) == Some(JsonView::String(idx.index_name))
            &&& (json::json_get(v, "Projection"@) is Some <==> idx.projection is Some)
            &&& (json::json_get(v, "SimilarityFunction"@) is Some
                <==> idx.similarity_function is Some)
            &&& json::json_get(v, "IndexStatus"@) is None
            &&& json::json_get(v, "Backfilling"@) is None
            &&& json::json_get(v, "KeySchema"@) is None
        }),
{
    lemma_index_json_value_lookups(index_json_of(idx));
}

/// Every vector attribute the builder accepts has a non-empty name and
/// between 1 and 16000 dimensions.
pub proof fn lemma_built_attribute_valid(b: VectorAttributeBuilderView)
    ensures
        match attribute_build_outcome(b) {
            Ok(a) => a.attribute_name.len() > 0 && 1 <= a.dimensions <= MAX_DIMENSIONS,
            Err(_) => true,
        },
{
}

/// Every vector index the builder accepts has a name that passes the
/// index-name rule and a vector attribute with dimensions, and carries no
/// response-only status or backfilling.
pub proof fn lemma_built_index_valid(b: VectorIndexBuilderView)
    ensures
        match index_build_outcome(b) {
            Ok(idx) => {
                &&& index_name_check(idx.index_name) is Ok
                &&& idx.vector_attribute.dimensions > 0
                &&& idx.index_status is None
                &&& idx.backfilling is None
            },
            Err(_) => true,
        },
{
}

/// The request form of an index update has exactly one member: `Create`
/// with the index for a creation, `Delete` naming the index for a deletion.
pub proof fn lemma_update_json_single_member(u: VectorIndexUpdateView)
    ensures
        update_json_value(update_json_of(u)) == JsonView::Object(
            match u {
                VectorIndexUpdateView::Create(idx) => seq![
                    ("Create"@, index_json_value(index_json_of(idx))),
                ],
                VectorIndexUpdateView::Delete { index_name } => seq![
                    (
                        "Delete"@,
                        JsonView::Object(seq![("IndexName"@, JsonView::String(index_name))]),
                    ),
                ],
            },
        ),
{
    match u {
        VectorIndexUpdateView::Create(idx) => {
            assert(optional_member("Create"@, Some(index_json_value(index_json_of(idx))))
                + optional_member("Delete"@, None) =~= seq![
                ("Create"@, index_json_value(index_json_of(idx))),
            ]);
        },
        VectorIndexUpdateView::Delete { index_name } => {
            assert(optional_member("Create"@, None) + optional_member(
                "Delete"@,
                Some(JsonView::Object(seq![("IndexName"@, JsonView::String(index_name))])),
            ) =~= seq![
                (
                    "Delete"@,
                    JsonView::Object(seq![("IndexName"@, JsonView::String(index_name))]),
                ),
            ]);
        },
    }
}

/// The request form of a vector search carries the query vector in DynamoDB
/// JSON, and a `ReturnScores` member exactly when scores are requested.
pub proof fn lemma_search_json_members(s: VectorSearchView)
    ensures
        ({
            let v = search_json_value(search_json_of(s));
            &&& json::json_get(v, "QueryVector"@) == Some(
                attribute_value::attribute_json(s.query_vector),
            )
            &&& (json::json_get(v, "ReturnScores"@) is Some <==> s.return_scores is Some)
        }),
{
    reveal_strlit("QueryVector");
    reveal_strlit("ReturnScores");
    assert("QueryVector"@.len() == 11);
    assert("ReturnScores"@.len() == 12);
    let j = search_json_of(s);
    let rm = optional_member(
        "ReturnScores"@,
        match j.return_scores {
            Some(r) => Some(JsonView::String(r)),
            None => None,
        },
    );
    let m = seq![("QueryVector"@, j.query_vector)] + rm;
    assert(search_json_value(j) == JsonView::Object(m));
    assert(forall|k: int| 1 <= k < m.len() ==> (#[trigger] m[k]).0 == "ReturnScores"@);
    json::lemma_lookup_found(m, "QueryVector"@, 0);
    if s.return_scores is Some {
        json::lemma_lookup_found(m, "ReturnScores"@, 1);
    } else {
        json::lemma_lookup_absent(m, "ReturnScores"@, 0);
    }
}

/// The compact form of a vector of `n` components is `4 * n` bytes long.
pub proof fn lemma_float32_vector_bytes_len(bits: Seq<u32>)
    ensures
        float32_vector_bytes(bits).len() == 4 * bits.len(),
    decreases bits.len(),
{
    if bits.len() > 0 {
        lemma_float32_vector_bytes_len(bits.drop_last());
    }
}

} // verus!
