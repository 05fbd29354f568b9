//! The records of the registry, the requests that change them and the
//! results of the queries, each with the mathematical value it stands for.

use vstd::prelude::*;

use vstd::hash_set::StringHashSet;
use vstd::string::*;

use crate::utils::text::{lowercase_of, same_text, to_lowercase, trim, trimmed};

verus! {

/// The texts that a list of strings holds, in order.
pub open spec fn texts_of(v: Seq<String>) -> Seq<Seq<char>> {
    Seq::new(v.len(), |i: int| v[i]@)
}

/// The texts of an optional list of strings.
pub open spec fn opt_texts_of(o: Option<Vec<String>>) -> Option<Seq<Seq<char>>> {
    match o {
        Some(v) => Some(texts_of(v@)),
        None => None,
    }
}

/// The text of an optional string.
pub open spec fn opt_text_of(o: Option<String>) -> Option<Seq<char>> {
    match o {
        Some(s) => Some(s@),
        None => None,
    }
}

/// One operator of the registry.
#[derive(Debug)]
pub struct Operator {
    pub country: String,
    pub e164: Option<Vec<String>>,
    pub e212: Option<Vec<String>>,
    pub iso2: String,
    pub iso3: String,
    pub name: Option<String>,
    pub realm: Option<Vec<String>>,
    pub tadig: Option<Vec<String>>,
}

/// What an `Operator` stands for: its fields as texts.
pub struct OperatorView {
    pub country: Seq<char>,
    pub e164: Option<Seq<Seq<char>>>,
    pub e212: Option<Seq<Seq<char>>>,
    pub iso2: Seq<char>,
    pub iso3: Seq<char>,
    pub name: Option<Seq<char>>,
    pub realm: Option<Seq<Seq<char>>>,
    pub tadig: Option<Seq<Seq<char>>>,
}

impl OperatorView {
    /// The country identity of the operator: its country name, two-letter
    /// code and three-letter code.
    pub open spec fn country_codes(self) -> (Seq<char>, Seq<char>, Seq<char>) {
        (self.country, self.iso2, self.iso3)
    }

    /// `key` is one of the operator's TADIG codes, letter for letter.
    pub open spec fn has_tadig(self, key: Seq<char>) -> bool {
        self.tadig matches Some(codes) && codes.contains(key)
    }
}

impl View for Operator {
    type V = OperatorView;

    open spec fn view(&self) -> OperatorView {
        OperatorView {
            country: self.country@,
            e164: opt_texts_of(self.e164),
            e212: opt_texts_of(self.e212),
            iso2: self.iso2@,
            iso3: self.iso3@,
            name: opt_text_of(self.name),
            realm: opt_texts_of(self.realm),
            tadig: opt_texts_of(self.tadig),
        }
    }
}

/// Whether `key` is among `codes`, letter for letter.
pub fn list_contains(codes: &Vec<String>, key: &str) -> (b: bool)
    ensures
        b == texts_of(codes@).contains(key@),
{
    let mut i: usize = 0;
    while i < codes.len()
        invariant
            i <= codes.len(),
            forall|j: int| 0 <= j < i ==> texts_of(codes@)[j] != key@,
        decreases codes.len() - i,
    {
        if same_text(codes[i].as_str(), key) {
            assert(texts_of(codes@)[i as int] == key@);
            return true;
        }
        i += 1;
    }
    false
}

/// A copy of a list of strings.
pub fn clone_texts(v: &Vec<String>) -> (r: Vec<String>)
    ensures
        texts_of(r@) == texts_of(v@),
{
    let r = v.clone();
    assert(texts_of(r@) =~= texts_of(v@));
    r
}

/// A copy of an optional list of strings.
pub fn clone_opt_texts(o: &Option<Vec<String>>) -> (r: Option<Vec<String>>)
    ensures
        opt_texts_of(r) == opt_texts_of(*o),
{
    match o {
        Some(v) => Some(clone_texts(v)),
        None => None,
    }
}

/// A copy of an optional string.
pub fn clone_opt_text(o: &Option<String>) -> (r: Option<String>)
    ensures
        opt_text_of(r) == opt_text_of(*o),
{
    match o {
        Some(s) => Some(s.clone()),
        None => None,
    }
}

impl Clone for Operator {
    fn clone(&self) -> (r: Operator)
        ensures
            r@ == self@,
    {
        Operator {
            country: self.country.clone(),
            e164: clone_opt_texts(&self.e164),
            e212: clone_opt_texts(&self.e212),
            iso2: self.iso2.clone(),
            iso3: self.iso3.clone(),
            name: clone_opt_text(&self.name),
            realm: clone_opt_texts(&self.realm),
            tadig: clone_opt_texts(&self.tadig),
        }
    }
}

impl Operator {
    /// Whether `key` is one of this operator's TADIG codes, letter for letter.
    pub fn has_tadig(&self, key: &str) -> (b: bool)
        ensures
            b == self@.has_tadig(key@),
    {
        match &self.tadig {
            Some(codes) => list_contains(codes, key),
            None => false,
        }
    }
}

/// The body of a request that creates an operator or replaces one whole.
#[derive(Debug)]
pub struct CreateOperator {
    pub country: String,
    pub e164: Option<Vec<String>>,
    pub e212: Option<Vec<String>>,
    pub name: Option<String>,
    pub realm: Option<Vec<String>>,
    pub tadig: Option<Vec<String>>,
}

/// What a `CreateOperator` stands for.
pub struct CreateOperatorView {
    pub country: Seq<char>,
    pub e164: Option<Seq<Seq<char>>>,
    pub e212: Option<Seq<Seq<char>>>,
    pub name: Option<Seq<char>>,
    pub realm: Option<Seq<Seq<char>>>,
    pub tadig: Option<Seq<Seq<char>>>,
}

impl CreateOperatorView {
    /// The TADIG codes that the request gives; none if it gives no list.
    pub open spec fn tadig_list(self) -> Seq<Seq<char>> {
        match self.tadig {
            Some(codes) => codes,
            None => Seq::empty(),
        }
    }

    /// The operator that the request describes, once its country is resolved
    /// to `country` with the codes `iso2` and `iso3`.
    pub open spec fn to_operator(
        self,
        country: Seq<char>,
        iso2: Seq<char>,
        iso3: Seq<char>,
    ) -> OperatorView {
        OperatorView {
            country,
            e164: self.e164,
            e212: self.e212,
            iso2,
            iso3,
            name: self.name,
            realm: self.realm,
            tadig: Some(self.tadig_list()),
        }
    }
}

impl View for CreateOperator {
    type V = CreateOperatorView;

    open spec fn view(&self) -> CreateOperatorView {
        CreateOperatorView {
            country: self.country@,
            e164: opt_texts_of(self.e164),
            e212: opt_texts_of(self.e212),
            name: opt_text_of(self.name),
            realm: opt_texts_of(self.realm),
            tadig: opt_texts_of(self.tadig),
        }
    }
}

impl Operator {
    /// The operator that `input` describes, in the country `country` with the
    /// codes `iso2` and `iso3`. A request without a TADIG list gives an
    /// operator with an empty one.
    pub fn from_create(country: String, iso2: String, iso3: String, input: CreateOperator) -> (r:
        Operator)
        ensures
            r@ == input@.to_operator(country@, iso2@, iso3@),
    {
        let tadig_list = match input.tadig {
            Some(codes) => codes,
            None => Vec::new(),
        };
        proof {
            if input.tadig is None {
                assert(texts_of(tadig_list@) =~= Seq::<Seq<char>>::empty());
            }
        }
        Operator {
            country,
            e164: input.e164,
            e212: input.e212,
            iso2,
            iso3,
            name: input.name,
            realm: input.realm,
            tadig: Some(tadig_list),
        }
    }
}

/// The body of a request that changes some fields of an operator. A field
/// that is `None` is left as it is; `name` may be set to `Some(None)` to
/// clear the name.
#[derive(Debug)]
pub struct PatchOperator {
    pub country: Option<String>,
    pub iso2: Option<String>,
    pub iso3: Option<String>,
    pub e164: Option<Vec<String>>,
    pub e212: Option<Vec<String>>,
    pub name: Option<Option<String>>,
    pub realm: Option<Vec<String>>,
    pub tadig: Option<Vec<String>>,
}

/// What a `PatchOperator` stands for.
pub struct PatchOperatorView {
    pub country: Option<Seq<char>>,
    pub iso2: Option<Seq<char>>,
    pub iso3: Option<Seq<char>>,
    pub e164: Option<Seq<Seq<char>>>,
    pub e212: Option<Seq<Seq<char>>>,
    pub name: Option<Option<Seq<char>>>,
    pub realm: Option<Seq<Seq<char>>>,
    pub tadig: Option<Seq<Seq<char>>>,
}

impl PatchOperatorView {
    /// The patch that changes nothing.
    pub open spec fn empty() -> PatchOperatorView {
        PatchOperatorView {
            country: None,
            iso2: None,
            iso3: None,
            e164: None,
            e212: None,
            name: None,
            realm: None,
            tadig: None,
        }
    }
}

impl View for PatchOperator {
    type V = PatchOperatorView;

    open spec fn view(&self) -> PatchOperatorView {
        PatchOperatorView {
            country: opt_text_of(self.country),
            iso2: opt_text_of(self.iso2),
            iso3: opt_text_of(self.iso3),
            e164: opt_texts_of(self.e164),
            e212: opt_texts_of(self.e212),
            name: match self.name {
                Some(n) => Some(opt_text_of(n)),
                None => None,
            },
            realm: opt_texts_of(self.realm),
            tadig: opt_texts_of(self.tadig),
        }
    }
}

impl Default for PatchOperator {
    fn default() -> (r: PatchOperator)
        ensures
            r@ == PatchOperatorView::empty(),
    {
        PatchOperator {
            country: None,
            iso2: None,
            iso3: None,
            e164: None,
            e212: None,
            name: None,
            realm: None,
            tadig: None,
        }
    }
}

/// The views of a list of operators, in order.
pub open spec fn views_of(ops: Seq<Operator>) -> Seq<OperatorView> {
    Seq::new(ops.len(), |i: int| ops[i]@)
}

/// The operators of one country code.
#[derive(Debug)]
pub struct GroupOperatorsSummary {
    pub iso3: String,
    pub total: usize,
    pub operators: Vec<Operator>,
}

/// The parameters of a lookup request.
#[derive(Debug)]
pub struct ReadQuery {
    pub imsi: Option<String>,
    pub msisdn: Option<String>,
    pub tadig: Option<String>,
    pub iso3: Option<String>,
}

/// The identifier by which a lookup searches.
#[derive(Debug, Clone, Copy, PartialEq, Eq, Structural)]
pub enum QueryType {
    Imsi,
    Msisdn,
    Tadig,
    Iso3,
}

/// Why a field of a request was refused.
#[derive(Debug)]
#[allow(inconsistent_fields)]
pub enum OperatorValidationError {
    InvalidImsiError { field: String, received: String, expected: String },
    DuplicateImsiError { field: String, received: String },
    InvalidMsisdnError { field: String, received: String, expected: String },
    DuplicateMsisdnError { field: String, received: String },
    InvalidTadigError { field: String, received: String, expected: String },
    DuplicateTadigError { field: String, received: String },
    InvalidCountry { field: String, received: String, expected: String },
    FieldValidationError { field: String, message: String, received: Option<String> },
}

/// What an `OperatorValidationError` stands for.
#[allow(inconsistent_fields)]
pub enum ValidationErrorView {
    InvalidImsiError { field: Seq<char>, received: Seq<char>, expected: Seq<char> },
    DuplicateImsiError { field: Seq<char>, received: Seq<char> },
    InvalidMsisdnError { field: Seq<char>, received: Seq<char>, expected: Seq<char> },
    DuplicateMsisdnError { field: Seq<char>, received: Seq<char> },
    InvalidTadigError { field: Seq<char>, received: Seq<char>, expected: Seq<char> },
    DuplicateTadigError { field: Seq<char>, received: Seq<char> },
    InvalidCountry { field: Seq<char>, received: Seq<char>, expected: Seq<char> },
    FieldValidationError { field: Seq<char>, message: Seq<char>, received: Option<Seq<char>> },
}

impl View for OperatorValidationError {
    type V = ValidationErrorView;

    open spec fn view(&self) -> ValidationErrorView {
        match self {
            OperatorValidationError::InvalidImsiError { field, received, expected } => {
                ValidationErrorView::InvalidImsiError {
                    field: field@,
                    received: received@,
                    expected: expected@,
                }
            },
            OperatorValidationError::DuplicateImsiError { field, received } => {
                ValidationErrorView::DuplicateImsiError { field: field@, received: received@ }
            },
            OperatorValidationError::InvalidMsisdnError { field, received, expected } => {
                ValidationErrorView::InvalidMsisdnError {
                    field: field@,
                    received: received@,
                    expected: expected@,
                }
            },
            OperatorValidationError::DuplicateMsisdnError { field, received } => {
                ValidationErrorView::DuplicateMsisdnError { field: field@, received: received@ }
            },
            OperatorValidationError::InvalidTadigError { field, received, expected } => {
                ValidationErrorView::InvalidTadigError {
                    field: field@,
                    received: received@,
                    expected: expected@,
                }
            },
            OperatorValidationError::DuplicateTadigError { field, received } => {
                ValidationErrorView::DuplicateTadigError { field: field@, received: received@ }
            },
            OperatorValidationError::InvalidCountry { field, received, expected } => {
                ValidationErrorView::InvalidCountry {
                    field: field@,
                    received: received@,
                    expected: expected@,
                }
            },
            OperatorValidationError::FieldValidationError { field, message, received } => {
                ValidationErrorView::FieldValidationError {
                    field: field@,
                    message: message@,
                    received: opt_text_of(*received),
                }
            },
        }
    }
}

impl Clone for OperatorValidationError {
    fn clone(&self) -> (r: OperatorValidationError)
        ensures
            r@ == self@,
    {
        match self {
            OperatorValidationError::InvalidImsiError { field, received, expected } => {
                OperatorValidationError::InvalidImsiError {
                    field: field.clone(),
                    received: received.clone(),
                    expected: expected.clone(),
                }
            },
            OperatorValidationError::DuplicateImsiError { field, received } => {
                OperatorValidationError::DuplicateImsiError {
                    field: field.clone(),
                    received: received.clone(),
                }
            },
            OperatorValidationError::InvalidMsisdnError { field, received, expected } => {
                OperatorValidationError::InvalidMsisdnError {
                    field: field.clone(),
                    received: received.clone(),
                    expected: expected.clone(),
                }
            },
            OperatorValidationError::DuplicateMsisdnError { field, received } => {
                OperatorValidationError::DuplicateMsisdnError {
                    field: field.clone(),
                    received: received.clone(),
                }
            },
            OperatorValidationError::InvalidTadigError { field, received, expected } => {
                OperatorValidationError::InvalidTadigError {
                    field: field.clone(),
                    received: received.clone(),
                    expected: expected.clone(),
                }
            },
            OperatorValidationError::DuplicateTadigError { field, received } => {
                OperatorValidationError::DuplicateTadigError {
                    field: field.clone(),
                    received: received.clone(),
                }
            },
            OperatorValidationError::InvalidCountry { field, received, expected } => {
                OperatorValidationError::InvalidCountry {
                    field: field.clone(),
                    received: received.clone(),
                    expected: expected.clone(),
                }
            },
            OperatorValidationError::FieldValidationError { field, message, received } => {
                OperatorValidationError::FieldValidationError {
                    field: field.clone(),
                    message: message.clone(),
                    received: clone_opt_text(received),
                }
            },
        }
    }
}

/// The kind of subscriber identifier that a digit check is made for.
#[derive(Clone, Copy, Debug, PartialEq, Eq, Structural)]
pub enum SubscriberIdKind {
    Imsi,
    Msisdn,
}

impl SubscriberIdKind {
    /// The error that a value of this kind gives when it is not made of
    /// digits alone.
    pub open spec fn error_view(self, field: Seq<char>, received: Seq<char>) -> ValidationErrorView {
        match self {
            SubscriberIdKind::Imsi => ValidationErrorView::InvalidImsiError {
                field,
                received,
                expected: "digits only"@,
            },
            SubscriberIdKind::Msisdn => ValidationErrorView::InvalidMsisdnError {
                field,
                received,
                expected: "digits only"@,
            },
        }
    }

    /// The error for a value of this kind that is not made of digits alone.
    pub fn error_kind(&self, field: String, received: String) -> (e: OperatorValidationError)
        ensures
            e@ == self.error_view(field@, received@),
    {
        match self {
            SubscriberIdKind::Imsi => OperatorValidationError::InvalidImsiError {
                field,
                received,
                expected: String::from_str("digits only"),
            },
            SubscriberIdKind::Msisdn => OperatorValidationError::InvalidMsisdnError {
                field,
                received,
                expected: String::from_str("digits only"),
            },
        }
    }
}

/// The neighbours of an operator's country and the operators found there.
#[derive(Debug)]
pub struct RoamingPartnersResult {
    pub message: String,
    pub bordering_countries: Vec<String>,
    pub partners: Vec<Operator>,
}

/// The most IMSI prefixes that a small operator has.
pub const SMALL_E212_MAX: usize = 3;

/// The most IMSI prefixes that a medium operator has.
pub const MEDIUM_E212_MAX: usize = 7;

/// The group of an operator by the number of its IMSI prefixes.
#[derive(Clone, Copy, Debug, PartialEq, Eq, Structural)]
pub enum SizeClass {
    Small,
    Medium,
    Large,
}

impl OperatorView {
    /// The number of IMSI prefixes of the operator; 0 without a list.
    pub open spec fn e212_count(self) -> nat {
        match self.e212 {
            Some(list) => list.len(),
            None => 0,
        }
    }

    /// The group of the operator: small with at most 3 IMSI prefixes, medium
    /// with at most 7, large with more.
    pub open spec fn size_class(self) -> SizeClass {
        if self.e212_count() <= SMALL_E212_MAX {
            SizeClass::Small
        } else if self.e212_count() <= MEDIUM_E212_MAX {
            SizeClass::Medium
        } else {
            SizeClass::Large
        }
    }
}

impl Operator {
    /// The group of the operator by the number of its IMSI prefixes.
    pub fn size_class(&self) -> (class: SizeClass)
        ensures
            class == self@.size_class(),
    {
        let e212_count = match &self.e212 {
            Some(list) => list.len(),
            None => 0,
        };
        if e212_count <= SMALL_E212_MAX {
            SizeClass::Small
        } else if e212_count <= MEDIUM_E212_MAX {
            SizeClass::Medium
        } else {
            SizeClass::Large
        }
    }
}

/// The operators of the registry in three groups by the number of their
/// IMSI prefixes, with the size of each group.
#[derive(Debug)]
pub struct OperatorSizeGroups {
    pub small_size_operators: usize,
    pub medium_size_operators: usize,
    pub large_size_operators: usize,
    pub small_operators: Vec<Operator>,
    pub medium_operators: Vec<Operator>,
    pub large_operators: Vec<Operator>,
}

impl Default for OperatorSizeGroups {
    fn default() -> (r: OperatorSizeGroups)
        ensures
            r.small_size_operators == 0,
            r.medium_size_operators == 0,
            r.large_size_operators == 0,
            r.small_operators@.len() == 0,
            r.medium_operators@.len() == 0,
            r.large_operators@.len() == 0,
    {
        OperatorSizeGroups {
            small_size_operators: 0,
            medium_size_operators: 0,
            large_size_operators: 0,
            small_operators: Vec::new(),
            medium_operators: Vec::new(),
            large_operators: Vec::new(),
        }
    }
}

/// The codes of an optional list, as a set.
pub open spec fn codes_of(list: Option<Seq<Seq<char>>>) -> Set<Seq<char>> {
    match list {
        Some(codes) => codes.to_set(),
        None => Set::empty(),
    }
}

/// The form in which operator names are compared: trimmed and lower-cased.
pub open spec fn name_key(name: Seq<char>) -> Seq<char> {
    lowercase_of(trimmed(name))
}

/// The key of an optional name, as a set of at most one element.
pub open spec fn name_keys_of(name: Option<Seq<char>>) -> Set<Seq<char>> {
    match name {
        Some(n) => set![name_key(n)],
        None => Set::empty(),
    }
}

/// The identifiers in use: IMSI prefixes, MSISDN prefixes, name keys and
/// TADIG codes.
pub struct DuplicateCheckerView {
    pub imsi_prefixes: Set<Seq<char>>,
    pub msisdn_prefixes: Set<Seq<char>>,
    pub operator_names: Set<Seq<char>>,
    pub tadig_codes: Set<Seq<char>>,
}

impl DuplicateCheckerView {
    /// No identifier at all.
    pub open spec fn empty() -> DuplicateCheckerView {
        DuplicateCheckerView {
            imsi_prefixes: Set::empty(),
            msisdn_prefixes: Set::empty(),
            operator_names: Set::empty(),
            tadig_codes: Set::empty(),
        }
    }

    /// The identifiers of `self` together with those of `other`.
    pub open spec fn union(self, other: DuplicateCheckerView) -> DuplicateCheckerView {
        DuplicateCheckerView {
            imsi_prefixes: self.imsi_prefixes.union(other.imsi_prefixes),
            msisdn_prefixes: self.msisdn_prefixes.union(other.msisdn_prefixes),
            operator_names: self.operator_names.union(other.operator_names),
            tadig_codes: self.tadig_codes.union(other.tadig_codes),
        }
    }

    /// The identifiers of `self` that are not among those of `other`.
    pub open spec fn difference(self, other: DuplicateCheckerView) -> DuplicateCheckerView {
        DuplicateCheckerView {
            imsi_prefixes: self.imsi_prefixes.difference(other.imsi_prefixes),
            msisdn_prefixes: self.msisdn_prefixes.difference(other.msisdn_prefixes),
            operator_names: self.operator_names.difference(other.operator_names),
            tadig_codes: self.tadig_codes.difference(other.tadig_codes),
        }
    }

    /// No identifier of `self` is one of `other`.
    pub open spec fn disjoint(self, other: DuplicateCheckerView) -> bool {
        &&& self.imsi_prefixes.disjoint(other.imsi_prefixes)
        &&& self.msisdn_prefixes.disjoint(other.msisdn_prefixes)
        &&& self.operator_names.disjoint(other.operator_names)
        &&& self.tadig_codes.disjoint(other.tadig_codes)
    }

    /// Every identifier of `self` is one of `other`.
    pub open spec fn subset_of(self, other: DuplicateCheckerView) -> bool {
        &&& self.imsi_prefixes.subset_of(other.imsi_prefixes)
        &&& self.msisdn_prefixes.subset_of(other.msisdn_prefixes)
        &&& self.operator_names.subset_of(other.operator_names)
        &&& self.tadig_codes.subset_of(other.tadig_codes)
    }

    /// The identifiers that a list of operators uses: each set is the union
    /// over all the operators.
    pub open spec fn of_operators(ops: Seq<OperatorView>) -> DuplicateCheckerView
        decreases ops.len(),
    {
        if ops.len() == 0 {
            DuplicateCheckerView::empty()
        } else {
            DuplicateCheckerView::of_operators(ops.drop_last()).union(ops.last().identifiers())
        }
    }
}

impl OperatorView {
    /// The identifiers that this one operator uses.
    pub open spec fn identifiers(self) -> DuplicateCheckerView {
        DuplicateCheckerView {
            imsi_prefixes: codes_of(self.e212),
            msisdn_prefixes: codes_of(self.e164),
            operator_names: name_keys_of(self.name),
            tadig_codes: codes_of(self.tadig),
        }
    }
}

/// No two operators of the list share an IMSI prefix, an MSISDN prefix, a
/// TADIG code or a name, names being compared trimmed and without case.
pub open spec fn identifiers_unique(ops: Seq<OperatorView>) -> bool {
    forall|i: int, j: int|
        0 <= i < j < ops.len() ==> (#[trigger] ops[i]).identifiers().disjoint(
            (#[trigger] ops[j]).identifiers(),
        )
}

/// The identifiers in use among a list of operators include those of each
/// operator of the list.
pub proof fn lemma_of_operators_includes(ops: Seq<OperatorView>, i: int)
    requires
        0 <= i < ops.len(),
    ensures
        ops[i].identifiers().subset_of(DuplicateCheckerView::of_operators(ops)),
    decreases ops.len(),
{
    if i < ops.len() - 1 {
        lemma_of_operators_includes(ops.drop_last(), i);
        assert(ops.drop_last()[i] == ops[i]);
    }
}

/// An identifier in use among a list of operators is one of some operator
/// of the list.
pub proof fn lemma_of_operators_only(ops: Seq<OperatorView>)
    ensures
        forall|c: Seq<char>| #[trigger]
            DuplicateCheckerView::of_operators(ops).imsi_prefixes.contains(c) ==> exists|i: int|
                0 <= i < ops.len() && (#[trigger] ops[i]).identifiers().imsi_prefixes.contains(c),
        forall|c: Seq<char>| #[trigger]
            DuplicateCheckerView::of_operators(ops).msisdn_prefixes.contains(c) ==> exists|i: int|
                0 <= i < ops.len() && (#[trigger] ops[i]).identifiers().msisdn_prefixes.contains(c),
        forall|c: Seq<char>| #[trigger]
            DuplicateCheckerView::of_operators(ops).operator_names.contains(c) ==> exists|i: int|
                0 <= i < ops.len() && (#[trigger] ops[i]).identifiers().operator_names.contains(c),
        forall|c: Seq<char>| #[trigger]
            DuplicateCheckerView::of_operators(ops).tadig_codes.contains(c) ==> exists|i: int|
                0 <= i < ops.len() && (#[trigger] ops[i]).identifiers().tadig_codes.contains(c),
    decreases ops.len(),
{
    if ops.len() > 0 {
        let front = ops.drop_last();
        lemma_of_operators_only(front);
        let all = DuplicateCheckerView::of_operators(ops);
        let last = ops.len() - 1;
        assert forall|c: Seq<char>| #[trigger] all.imsi_prefixes.contains(c) implies exists|i: int|
            0 <= i < ops.len() && (#[trigger] ops[i]).identifiers().imsi_prefixes.contains(c) by {
            if DuplicateCheckerView::of_operators(front).imsi_prefixes.contains(c) {
                let i = choose|i: int|
                    0 <= i < front.len() && (#[trigger] front[i]).identifiers().imsi_prefixes.contains(
                        c,
                    );
                assert(ops[i] == front[i]);
            } else {
                assert(ops[last].identifiers().imsi_prefixes.contains(c));
            }
        }
        assert forall|c: Seq<char>| #[trigger] all.msisdn_prefixes.contains(c) implies exists|i: int|
            0 <= i < ops.len() && (#[trigger] ops[i]).identifiers().msisdn_prefixes.contains(c) by {
            if DuplicateCheckerView::of_operators(front).msisdn_prefixes.contains(c) {
                let i = choose|i: int|
                    0 <= i < front.len() && (
                    #[trigger] front[i]).identifiers().msisdn_prefixes.contains(c);
                assert(ops[i] == front[i]);
            } else {
                assert(ops[last].identifiers().msisdn_prefixes.contains(c));
            }
        }
        assert forall|c: Seq<char>| #[trigger] all.operator_names.contains(c) implies exists|i: int|
            0 <= i < ops.len() && (#[trigger] ops[i]).identifiers().operator_names.contains(c) by {
            if DuplicateCheckerView::of_operators(front).operator_names.contains(c) {
                let i = choose|i: int|
                    0 <= i < front.len() && (
                    #[trigger] front[i]).identifiers().operator_names.contains(c);
                assert(ops[i] == front[i]);
            } else {
                assert(ops[last].identifiers().operator_names.contains(c));
            }
        }
        assert forall|c: Seq<char>| #[trigger] all.tadig_codes.contains(c) implies exists|i: int|
            0 <= i < ops.len() && (#[trigger] ops[i]).identifiers().tadig_codes.contains(c) by {
            if DuplicateCheckerView::of_operators(front).tadig_codes.contains(c) {
                let i = choose|i: int|
                    0 <= i < front.len() && (#[trigger] front[i]).identifiers().tadig_codes.contains(
                        c,
                    );
                assert(ops[i] == front[i]);
            } else {
                assert(ops[last].identifiers().tadig_codes.contains(c));
            }
        }
    }
}

/// The identifiers that a list of operators uses, held for the checks that
/// keep them unique.
pub struct OperatorDuplicateChecker {
    pub imsi_prefixes: StringHashSet,
    pub msisdn_prefixes: StringHashSet,
    pub operator_names: StringHashSet,
    pub tadig_codes: StringHashSet,
}

impl View for OperatorDuplicateChecker {
    type V = DuplicateCheckerView;

    open spec fn view(&self) -> DuplicateCheckerView {
        DuplicateCheckerView {
            imsi_prefixes: self.imsi_prefixes@,
            msisdn_prefixes: self.msisdn_prefixes@,
            operator_names: self.operator_names@,
            tadig_codes: self.tadig_codes@,
        }
    }
}

impl Default for OperatorDuplicateChecker {
    fn default() -> (r: OperatorDuplicateChecker)
        ensures
            r@ == DuplicateCheckerView::empty(),
    {
        OperatorDuplicateChecker {
            imsi_prefixes: StringHashSet::new(),
            msisdn_prefixes: StringHashSet::new(),
            operator_names: StringHashSet::new(),
            tadig_codes: StringHashSet::new(),
        }
    }
}

/// The key under which an operator name is compared with others.
pub fn name_key_of(name: &str) -> (key: String)
    ensures
        key@ == name_key(name@),
{
    to_lowercase(trim(name))
}

fn insert_codes(set: &mut StringHashSet, list: &Option<Vec<String>>)
    ensures
        final(set)@ == old(set)@.union(codes_of(opt_texts_of(*list))),
{
    match list {
        Some(codes) => {
            let mut i: usize = 0;
            while i < codes.len()
                invariant
                    i <= codes.len(),
                    set@ == old(set)@.union(texts_of(codes@).take(i as int).to_set()),
                decreases codes.len() - i,
            {
                set.insert(codes[i].clone());
                proof {
                    let t = texts_of(codes@);
                    assert(t.take(i + 1) == t.take(i as int).push(t[i as int]));
                    lemma_push_to_set(t.take(i as int), t[i as int]);
                }
                i += 1;
            }
            proof {
                assert(texts_of(codes@).take(codes.len() as int) == texts_of(codes@));
            }
        },
        None => {},
    }
}

fn remove_codes(set: &mut StringHashSet, list: &Option<Vec<String>>)
    ensures
        final(set)@ == old(set)@.difference(codes_of(opt_texts_of(*list))),
{
    match list {
        Some(codes) => {
            let mut i: usize = 0;
            while i < codes.len()
                invariant
                    i <= codes.len(),
                    set@ == old(set)@.difference(texts_of(codes@).take(i as int).to_set()),
                decreases codes.len() - i,
            {
                set.remove(codes[i].as_str());
                proof {
                    let t = texts_of(codes@);
                    assert(t.take(i + 1) == t.take(i as int).push(t[i as int]));
                    lemma_push_to_set(t.take(i as int), t[i as int]);
                }
                i += 1;
            }
            proof {
                assert(texts_of(codes@).take(codes.len() as int) == texts_of(codes@));
            }
        },
        None => {},
    }
}

/// The set of a sequence with one more element is the set of the sequence
/// with that element inserted.
pub proof fn lemma_push_to_set(s: Seq<Seq<char>>, x: Seq<char>)
    ensures
        s.push(x).to_set() == s.to_set().insert(x),
{
    assert forall|y: Seq<char>| s.push(x).to_set().contains(y) <==> s.to_set().insert(x).contains(
        y,
    ) by {
        if s.push(x).to_set().contains(y) {
            let i = choose|i: int| 0 <= i < s.push(x).len() && s.push(x)[i] == y;
            if i < s.len() {
                assert(s[i] == y);
            }
        }
        if s.to_set().contains(y) {
            let i = choose|i: int| 0 <= i < s.len() && s[i] == y;
            assert(s.push(x)[i] == y);
        }
        if y == x {
            assert(s.push(x)[s.len() as int] == x);
        }
    }
    assert(s.push(x).to_set() =~= s.to_set().insert(x));
}

impl OperatorDuplicateChecker {
    /// Collects the identifiers that `ops` use.
    pub fn from_operators(ops: &[Operator]) -> (r: OperatorDuplicateChecker)
        ensures
            r@ == DuplicateCheckerView::of_operators(views_of(ops@)),
    {
        let mut r = OperatorDuplicateChecker::default();
        let mut i: usize = 0;
        while i < ops.len()
            invariant
                i <= ops.len(),
                r@ == DuplicateCheckerView::of_operators(views_of(ops@).take(i as int)),
            decreases ops.len() - i,
        {
            let op = &ops[i];
            insert_codes(&mut r.imsi_prefixes, &op.e212);
            insert_codes(&mut r.msisdn_prefixes, &op.e164);
            match &op.name {
                Some(n) => {
                    r.operator_names.insert(name_key_of(n.as_str()));
                },
                None => {},
            }
            insert_codes(&mut r.tadig_codes, &op.tadig);
            proof {
                let v = views_of(ops@);
                assert(v.take(i + 1).drop_last() == v.take(i as int));
                assert(v.take(i + 1).last() == op@);
                assert(r@.operator_names =~= DuplicateCheckerView::of_operators(
                    v.take(i as int),
                ).operator_names.union(name_keys_of(op@.name)));
            }
            i += 1;
        }
        proof {
            assert(views_of(ops@).take(ops.len() as int) == views_of(ops@));
        }
        r
    }

    /// Takes the identifiers of `op` out of every set, so that `op` does not
    /// collide with itself when it is checked against the rest.
    pub fn exclude(&mut self, op: &Operator)
        ensures
            final(self)@ == old(self)@.difference(op@.identifiers()),
    {
        remove_codes(&mut self.imsi_prefixes, &op.e212);
        remove_codes(&mut self.msisdn_prefixes, &op.e164);
        match &op.name {
            Some(n) => {
                let key = name_key_of(n.as_str());
                self.operator_names.remove(key.as_str());
            },
            None => {},
        }
        remove_codes(&mut self.tadig_codes, &op.tadig);
        proof {
            assert(self@.operator_names =~= old(self)@.operator_names.difference(
                name_keys_of(op@.name),
            ));
        }
    }
}

} // verus!
