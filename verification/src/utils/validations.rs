//! The checks that every change of the registry passes: the form of each
//! field, and that no identifier is taken twice. Each check stops at the
//! first rule that is broken.

use vstd::hash_set::StringHashSet;
use vstd::prelude::*;
use vstd::string::*;

use std::sync::Arc;

use crate::utils::error_responses::{ErrorResponse, ErrorResponseView};
use crate::utils::models::{
    codes_of, name_key, name_key_of, name_keys_of, opt_text_of, opt_texts_of, texts_of, views_of, DuplicateCheckerView,
    Operator, OperatorDuplicateChecker, OperatorValidationError, OperatorView, PatchOperator,
    PatchOperatorView, SubscriberIdKind, ValidationErrorView,
};
use crate::utils::search::{
    first_index, position, shared_position, shared_views_of, Lookup, Selector,
};
use crate::utils::text::{
    all_digits, all_letters, all_letters_or_spaces, all_tadig_chars, all_upper, ascii_uppercased,
    capitalize, capitalized, is_all_digits, is_all_letters, is_all_letters_or_spaces,
    is_all_tadig_chars, is_all_upper, is_ascii_letter, is_ascii_upper, same_text,
    to_ascii_uppercase, trim, trimmed,
};

verus! {

/// What a `Result` of a text or an error stands for.
pub open spec fn text_result_view(r: Result<String, ErrorResponse>) -> Result<
    Seq<char>,
    ErrorResponseView,
> {
    match r {
        Ok(s) => Ok(s@),
        Err(e) => Err(e@),
    }
}

/// What a `Result` of a text or a fault of a field stands for.
pub open spec fn checked_text_view(r: Result<String, OperatorValidationError>) -> Result<
    Seq<char>,
    ValidationErrorView,
> {
    match r {
        Ok(s) => Ok(s@),
        Err(e) => Err(e@),
    }
}

/// What a `Result` of nothing or an error stands for.
pub open spec fn unit_result_view(r: Result<(), ErrorResponse>) -> Result<(), ErrorResponseView> {
    match r {
        Ok(_) => Ok(()),
        Err(e) => Err(e@),
    }
}

/// The error for a field that is empty once trimmed.
pub open spec fn empty_field_error(field: Seq<char>) -> ValidationErrorView {
    ValidationErrorView::FieldValidationError {
        field,
        message: field + " cannot be empty"@,
        received: Some(Seq::empty()),
    }
}

/// The error for a field that holds more than letters and spaces.
pub open spec fn letters_only_error(field: Seq<char>, value: Seq<char>) -> ValidationErrorView {
    ValidationErrorView::FieldValidationError {
        field,
        message: field + " must contain only letters and spaces"@,
        received: Some(value),
    }
}

/// The value of a field without the whitespace around it; an error if
/// nothing is left.
pub fn validate_non_empty<'a>(field_name: &'a str, field_value: &'a str) -> (r: Result<
    &'a str,
    OperatorValidationError,
>)
    ensures
        match r {
            Ok(t) => trimmed(field_value@).len() > 0 && t@ == trimmed(field_value@),
            Err(e) => trimmed(field_value@).len() == 0 && e@ == empty_field_error(field_name@),
        },
{
    let t = trim(field_value);
    if t.unicode_len() == 0 {
        assert(t@ =~= Seq::<char>::empty());
        let mut message = String::from_str(field_name);
        message.append(" cannot be empty");
        Err(
            OperatorValidationError::FieldValidationError {
                field: String::from_str(field_name),
                message,
                received: Some(String::from_str(t)),
            },
        )
    } else {
        Ok(t)
    }
}

/// Accepts a value made of ASCII digits alone; the empty value passes.
pub fn validate_digits(kind: SubscriberIdKind, field_name: &str, val: &str) -> (r: Result<
    (),
    OperatorValidationError,
>)
    ensures
        match r {
            Ok(_) => all_digits(val@),
            Err(e) => !all_digits(val@) && e@ == kind.error_view(field_name@, val@),
        },
{
    if is_all_digits(val) {
        Ok(())
    } else {
        Err(kind.error_kind(String::from_str(field_name), String::from_str(val)))
    }
}

/// Accepts a value made of ASCII letters and whitespace alone.
pub fn validate_characters_and_spaces(field_name: &str, field_value: &str) -> (r: Result<
    (),
    OperatorValidationError,
>)
    ensures
        match r {
            Ok(_) => all_letters_or_spaces(field_value@),
            Err(e) => !all_letters_or_spaces(field_value@) && e@ == letters_only_error(
                field_name@,
                field_value@,
            ),
        },
{
    if is_all_letters_or_spaces(field_value) {
        Ok(())
    } else {
        let mut message = String::from_str(field_name);
        message.append(" must contain only letters and spaces");
        Err(
            OperatorValidationError::FieldValidationError {
                field: String::from_str(field_name),
                message,
                received: Some(String::from_str(field_value)),
            },
        )
    }
}

/// The canonical form of a country name, or why the name is refused: the
/// name is trimmed, must not be empty and must hold letters and spaces only;
/// its first character is then upper-cased and the rest lower-cased.
pub open spec fn country_name_result(raw: Seq<char>) -> Result<Seq<char>, ErrorResponseView> {
    let name = trimmed(raw);
    if name.len() == 0 {
        Err(ErrorResponseView::Validation(empty_field_error("country"@)))
    } else if !all_letters_or_spaces(name) {
        Err(ErrorResponseView::Validation(letters_only_error("country"@, name)))
    } else {
        Ok(capitalized(name))
    }
}

/// Brings a country name into its canonical form.
pub fn format_country_name(raw_country: &str) -> (r: Result<String, ErrorResponse>)
    ensures
        text_result_view(r) == country_name_result(raw_country@),
{
    let name = match validate_non_empty("country", raw_country) {
        Ok(name) => name,
        Err(e) => {
            return Err(ErrorResponse::Validation(e));
        },
    };
    match validate_characters_and_spaces("country", name) {
        Ok(_) => {},
        Err(e) => {
            return Err(ErrorResponse::Validation(e));
        },
    }
    Ok(capitalize(name))
}

/// The display form of a network name: trimmed, the first character
/// upper-cased and the rest lower-cased. A blank name gives the empty string.
pub fn format_network_name(network_name_input: &str) -> (r: String)
    ensures
        r@ == capitalized(trimmed(network_name_input@)),
{
    capitalize(trim(network_name_input))
}

/// The error for a country code of a patch that has not the given number
/// of letters.
pub open spec fn iso_shape_error(
    field: Seq<char>,
    message: Seq<char>,
    value: Seq<char>,
) -> ErrorResponseView {
    ErrorResponseView::Validation(
        ValidationErrorView::FieldValidationError { field, message, received: Some(value) },
    )
}

/// `value` is made of exactly `n` ASCII letters.
pub open spec fn is_letter_code(value: Seq<char>, n: nat) -> bool {
    value.len() == n && all_letters(value)
}

/// What the check of a patch's country codes gives: the two-letter code is
/// looked at first, then the three-letter code; a code that is absent passes.
pub open spec fn iso_fields_result(patch: PatchOperatorView) -> Result<(), ErrorResponseView> {
    if patch.iso2 is Some && !is_letter_code(patch.iso2->0, 2) {
        Err(iso_shape_error("iso2"@, "ISO2 must be exactly 2 letters"@, patch.iso2->0))
    } else if patch.iso3 is Some && !is_letter_code(patch.iso3->0, 3) {
        Err(iso_shape_error("iso3"@, "ISO3 must be exactly 3 letters"@, patch.iso3->0))
    } else {
        Ok(())
    }
}

fn has_letter_code_shape(value: &str, n: usize) -> (b: bool)
    ensures
        b == is_letter_code(value@, n as nat),
{
    value.unicode_len() == n && is_all_letters(value)
}

/// Checks the shape of the country codes that a patch supplies.
pub fn validate_iso_fields(patch: &PatchOperator) -> (r: Result<(), ErrorResponse>)
    ensures
        unit_result_view(r) == iso_fields_result(patch@),
{
    if let Some(iso2) = &patch.iso2 {
        if !has_letter_code_shape(iso2.as_str(), 2) {
            return Err(
                ErrorResponse::Validation(
                    OperatorValidationError::FieldValidationError {
                        field: String::from_str("iso2"),
                        message: String::from_str("ISO2 must be exactly 2 letters"),
                        received: Some(iso2.clone()),
                    },
                ),
            );
        }
    }
    if let Some(iso3) = &patch.iso3 {
        if !has_letter_code_shape(iso3.as_str(), 3) {
            return Err(
                ErrorResponse::Validation(
                    OperatorValidationError::FieldValidationError {
                        field: String::from_str("iso3"),
                        message: String::from_str("ISO3 must be exactly 3 letters"),
                        received: Some(iso3.clone()),
                    },
                ),
            );
        }
    }
    Ok(())
}

/// What the check of a three-letter country code gives: the code in upper
/// case if it is made of three ASCII letters, an error that names `field`
/// and the code as it was received otherwise.
pub open spec fn iso3_code_result(field: Seq<char>, iso3: Seq<char>) -> Result<
    Seq<char>,
    ValidationErrorView,
> {
    let upper = ascii_uppercased(iso3);
    if upper.len() == 3 && all_upper(upper) {
        Ok(upper)
    } else {
        Err(
            ValidationErrorView::FieldValidationError {
                field,
                message: "ISO3 must be exactly 3 ASCII letters"@,
                received: Some(iso3),
            },
        )
    }
}

/// Checks a three-letter country code and gives it back in upper case.
pub fn validate_iso3_code(field_name: &str, iso3: &str) -> (r: Result<
    String,
    OperatorValidationError,
>)
    ensures
        checked_text_view(r) == iso3_code_result(field_name@, iso3@),
{
    let uppercase_iso3 = to_ascii_uppercase(iso3);
    let is_valid_iso3 = uppercase_iso3.as_str().unicode_len() == 3 && is_all_upper(
        uppercase_iso3.as_str(),
    );
    if is_valid_iso3 {
        Ok(uppercase_iso3)
    } else {
        Err(
            OperatorValidationError::FieldValidationError {
                field: String::from_str(field_name),
                message: String::from_str("ISO3 must be exactly 3 ASCII letters"),
                received: Some(String::from_str(iso3)),
            },
        )
    }
}

/// A three-letter code passes the check exactly if it is made of three
/// ASCII letters, of either case.
pub proof fn lemma_iso3_code_accepts_letters(field: Seq<char>, iso3: Seq<char>)
    ensures
        iso3_code_result(field, iso3) is Ok <==> is_letter_code(iso3, 3),
{
    let upper = ascii_uppercased(iso3);
    if is_letter_code(iso3, 3) {
        assert forall|i: int| 0 <= i < upper.len() implies is_ascii_upper(
            #[trigger] upper[i],
        ) by {
            assert(is_ascii_letter(iso3[i]));
        }
    }
    if iso3_code_result(field, iso3) is Ok {
        assert forall|i: int| 0 <= i < iso3.len() implies is_ascii_letter(
            #[trigger] iso3[i],
        ) by {
            assert(is_ascii_upper(upper[i]));
        }
    }
}

/// The error for a key that no operator of the registry answers to.
pub open spec fn not_found_error(
    field: Seq<char>,
    received: Seq<char>,
    expected: Seq<char>,
) -> ErrorResponseView {
    ErrorResponseView::NotFound { field, received, expected }
}

/// The error for a country that no operator of the registry has.
pub open spec fn invalid_country_error(country: Seq<char>) -> ErrorResponseView {
    ErrorResponseView::Validation(
        ValidationErrorView::InvalidCountry {
            field: "country"@,
            received: country,
            expected: "an existing country"@,
        },
    )
}

/// The country, two-letter code and three-letter code of the first operator
/// that answers to `by`; the given error if there is none.
pub open spec fn codes_of_first(
    ops: Seq<OperatorView>,
    by: Selector,
    missing: ErrorResponseView,
) -> Result<(Seq<char>, Seq<char>, Seq<char>), ErrorResponseView> {
    match first_index(ops, by) {
        Some(k) => Ok(ops[k].country_codes()),
        None => Err(missing),
    }
}

/// The country identity that an operator has after a patch. The three-letter
/// code of the patch decides if it is there, else the two-letter code, else
/// the country name in its canonical form; each is looked up among the
/// operators of the registry and gives the identity of the first that has
/// it. A patch with none of the three leaves the identity as it is.
pub open spec fn updated_codes_result(
    ops: Seq<OperatorView>,
    patch: PatchOperatorView,
    current: OperatorView,
) -> Result<(Seq<char>, Seq<char>, Seq<char>), ErrorResponseView> {
    if patch.iso3 is Some {
        codes_of_first(
            ops,
            Selector::Iso3(patch.iso3->0),
            not_found_error("iso3"@, patch.iso3->0, "an existing ISO3 code"@),
        )
    } else if patch.iso2 is Some {
        codes_of_first(
            ops,
            Selector::Iso2(patch.iso2->0),
            not_found_error("iso2"@, patch.iso2->0, "an existing ISO2 code"@),
        )
    } else if patch.country is Some {
        match country_name_result(patch.country->0) {
            Ok(formatted) => codes_of_first(
                ops,
                Selector::Country(formatted),
                not_found_error("country"@, formatted, "an existing country"@),
            ),
            Err(e) => Err(e),
        }
    } else {
        Ok(current.country_codes())
    }
}

/// What a `Result` of a country identity or an error stands for.
pub open spec fn codes_result_view(r: Result<(String, String, String), ErrorResponse>) -> Result<
    (Seq<char>, Seq<char>, Seq<char>),
    ErrorResponseView,
> {
    match r {
        Ok(codes) => Ok((codes.0@, codes.1@, codes.2@)),
        Err(e) => Err(e@),
    }
}

fn codes_at(all_operators: &[Arc<Operator>], k: usize) -> (r: (String, String, String))
    requires
        k < all_operators@.len(),
    ensures
        (r.0@, r.1@, r.2@) == shared_views_of(all_operators@)[k as int].country_codes(),
{
    let op = &all_operators[k];
    (op.country.clone(), op.iso2.clone(), op.iso3.clone())
}

fn not_found(field: &str, received: &str, expected: &str) -> (e: ErrorResponse)
    ensures
        e@ == not_found_error(field@, received@, expected@),
{
    ErrorResponse::NotFound {
        field: String::from_str(field),
        received: String::from_str(received),
        expected: String::from_str(expected),
    }
}

/// Resolves the country identity that an operator has after a patch.
pub fn determine_updated_codes(
    all_operators: &[Arc<Operator>],
    patch: &PatchOperator,
    current: &Operator,
) -> (r: Result<(String, String, String), ErrorResponse>)
    ensures
        codes_result_view(r) == updated_codes_result(
            shared_views_of(all_operators@),
            patch@,
            current@,
        ),
{
    proof {
        crate::utils::search::lemma_first_index(
            shared_views_of(all_operators@),
            Selector::Iso3(patch@.iso3->0),
        );
        crate::utils::search::lemma_first_index(
            shared_views_of(all_operators@),
            Selector::Iso2(patch@.iso2->0),
        );
    }
    if let Some(iso3) = &patch.iso3 {
        return match shared_position(all_operators, Lookup::Iso3(iso3.as_str())) {
            Some(k) => Ok(codes_at(all_operators, k)),
            None => Err(not_found("iso3", iso3.as_str(), "an existing ISO3 code")),
        };
    }
    if let Some(iso2) = &patch.iso2 {
        return match shared_position(all_operators, Lookup::Iso2(iso2.as_str())) {
            Some(k) => Ok(codes_at(all_operators, k)),
            None => Err(not_found("iso2", iso2.as_str(), "an existing ISO2 code")),
        };
    }
    if let Some(country_raw) = &patch.country {
        let formatted = match format_country_name(country_raw.as_str()) {
            Ok(formatted) => formatted,
            Err(e) => {
                return Err(e);
            },
        };
        proof {
            crate::utils::search::lemma_first_index(
                shared_views_of(all_operators@),
                Selector::Country(formatted@),
            );
        }
        return match shared_position(all_operators, Lookup::Country(formatted.as_str())) {
            Some(k) => Ok(codes_at(all_operators, k)),
            None => Err(not_found("country", formatted.as_str(), "an existing country")),
        };
    }
    Ok((current.country.clone(), current.iso2.clone(), current.iso3.clone()))
}

/// The first operator of `list` whose country is `country`, letter for
/// letter.
pub fn find_operator_by_country<'a>(list: &'a [Operator], country: &str) -> (r: Result<
    &'a Operator,
    ErrorResponse,
>)
    ensures
        match r {
            Ok(op) => first_index(views_of(list@), Selector::Country(country@)) matches Some(k)
                && 0 <= k < list@.len() && *op == list@[k],
            Err(e) => first_index(views_of(list@), Selector::Country(country@)) is None && e@
                == invalid_country_error(country@),
        },
{
    proof {
        crate::utils::search::lemma_first_index(views_of(list@), Selector::Country(country@));
    }
    match position(list, Lookup::Country(country)) {
        Some(k) => Ok(&list[k]),
        None => Err(
            ErrorResponse::Validation(
                OperatorValidationError::InvalidCountry {
                    field: String::from_str("country"),
                    received: String::from_str(country),
                    expected: String::from_str("an existing country"),
                },
            ),
        ),
    }
}

/// The error for a code that another operator already has.
pub open spec fn duplicate_error(
    kind: SubscriberIdKind,
    field: Seq<char>,
    received: Seq<char>,
) -> ValidationErrorView {
    match kind {
        SubscriberIdKind::Imsi => ValidationErrorView::DuplicateImsiError { field, received },
        SubscriberIdKind::Msisdn => ValidationErrorView::DuplicateMsisdnError { field, received },
    }
}

/// The first fault among the codes from index `i` on: a code is faulty if it
/// is not made of digits alone, or else if it is already in use.
pub open spec fn numeric_codes_fault_from(
    kind: SubscriberIdKind,
    field: Seq<char>,
    codes: Seq<Seq<char>>,
    existing: Set<Seq<char>>,
    i: int,
) -> Option<ValidationErrorView>
    decreases codes.len() - i,
{
    if i < 0 || i >= codes.len() {
        None
    } else if !all_digits(codes[i]) {
        Some(kind.error_view(field, codes[i]))
    } else if existing.contains(codes[i]) {
        Some(duplicate_error(kind, field, codes[i]))
    } else {
        numeric_codes_fault_from(kind, field, codes, existing, i + 1)
    }
}

/// What the check of a list of IMSI or MSISDN prefixes gives. A request
/// without a list passes.
pub open spec fn numeric_codes_result(
    kind: SubscriberIdKind,
    field: Seq<char>,
    codes: Option<Seq<Seq<char>>>,
    existing: Set<Seq<char>>,
) -> Result<(), ErrorResponseView> {
    match codes {
        Some(list) => match numeric_codes_fault_from(kind, field, list, existing, 0) {
            Some(e) => Err(ErrorResponseView::Validation(e)),
            None => Ok(()),
        },
        None => Ok(()),
    }
}

/// The kind of prefix that a field holds: IMSI prefixes in `e212`, MSISDN
/// prefixes in any other.
pub open spec fn kind_of_field(field: Seq<char>) -> SubscriberIdKind {
    if field == "e212"@ {
        SubscriberIdKind::Imsi
    } else {
        SubscriberIdKind::Msisdn
    }
}

/// The texts of an optional slice of strings.
pub open spec fn opt_slice_texts(codes: Option<&[String]>) -> Option<Seq<Seq<char>>> {
    match codes {
        Some(list) => Some(texts_of(list@)),
        None => None,
    }
}

fn duplicate_of(kind: SubscriberIdKind, field: &str, received: &str) -> (e: OperatorValidationError)
    ensures
        e@ == duplicate_error(kind, field@, received@),
{
    match kind {
        SubscriberIdKind::Imsi => OperatorValidationError::DuplicateImsiError {
            field: String::from_str(field),
            received: String::from_str(received),
        },
        SubscriberIdKind::Msisdn => OperatorValidationError::DuplicateMsisdnError {
            field: String::from_str(field),
            received: String::from_str(received),
        },
    }
}

fn check_numeric_codes(
    kind: SubscriberIdKind,
    field: &str,
    codes: Option<&[String]>,
    existing: &StringHashSet,
) -> (r: Result<(), ErrorResponse>)
    ensures
        unit_result_view(r) == numeric_codes_result(
            kind,
            field@,
            opt_slice_texts(codes),
            existing@,
        ),
{
    if let Some(list) = codes {
        let ghost t = texts_of(list@);
        let mut i: usize = 0;
        while i < list.len()
            invariant
                i <= list.len(),
                codes == Some(list),
                t == texts_of(list@),
                numeric_codes_fault_from(kind, field@, t, existing@, 0)
                    == numeric_codes_fault_from(kind, field@, t, existing@, i as int),
            decreases list.len() - i,
        {
            let code = list[i].as_str();
            assert(code@ == t[i as int]);
            match validate_digits(kind, field, code) {
                Ok(_) => {},
                Err(e) => {
                    return Err(ErrorResponse::Validation(e));
                },
            }
            if existing.contains(code) {
                return Err(ErrorResponse::Validation(duplicate_of(kind, field, code)));
            }
            i += 1;
        }
    }
    Ok(())
}

/// Checks a list of IMSI or MSISDN prefixes: each must be made of digits
/// alone and must not be in use. The field `e212` holds IMSI prefixes, any
/// other MSISDN prefixes.
pub fn validate_unique_numeric_codes(
    field: &str,
    _code_type: &str,
    codes: Option<&[String]>,
    existing: &StringHashSet,
) -> (r: Result<(), ErrorResponse>)
    ensures
        unit_result_view(r) == numeric_codes_result(
            kind_of_field(field@),
            field@,
            opt_slice_texts(codes),
            existing@,
        ),
{
    let kind = if same_text(field, "e212") {
        SubscriberIdKind::Imsi
    } else {
        SubscriberIdKind::Msisdn
    };
    check_numeric_codes(kind, field, codes, existing)
}

/// Checks the IMSI prefixes of a request against those in use.
pub fn validate_unique_imsi_codes(
    imsi_codes: Option<&[String]>,
    existing_imsi_prefixes: &StringHashSet,
) -> (r: Result<(), ErrorResponse>)
    ensures
        unit_result_view(r) == numeric_codes_result(
            SubscriberIdKind::Imsi,
            "e212"@,
            opt_slice_texts(imsi_codes),
            existing_imsi_prefixes@,
        ),
{
    validate_unique_numeric_codes("e212", "IMSI prefix", imsi_codes, existing_imsi_prefixes)
}

/// Checks the MSISDN prefixes of a request against those in use.
pub fn validate_unique_msisdn_codes(
    msisdn_codes: Option<&[String]>,
    existing_msisdn_prefixes: &StringHashSet,
) -> (r: Result<(), ErrorResponse>)
    ensures
        unit_result_view(r) == numeric_codes_result(
            SubscriberIdKind::Msisdn,
            "e164"@,
            opt_slice_texts(msisdn_codes),
            existing_msisdn_prefixes@,
        ),
{
    proof {
        reveal_strlit("e164");
        reveal_strlit("e212");
        assert("e164"@[2] != "e212"@[2]);
    }
    validate_unique_numeric_codes("e164", "MSISDN prefix", msisdn_codes, existing_msisdn_prefixes)
}

/// The error for a name that another operator already has.
pub open spec fn name_taken_error(name: Seq<char>) -> ErrorResponseView {
    ErrorResponseView::Validation(
        ValidationErrorView::FieldValidationError {
            field: "name"@,
            message: "Operator name '"@ + name + "' already exists"@,
            received: Some(name),
        },
    )
}

/// What the check of an operator name gives: a name is refused if its key,
/// the name trimmed and in lower case, is already in use. No name passes.
pub open spec fn name_result(name: Option<Seq<char>>, existing: Set<Seq<char>>) -> Result<
    (),
    ErrorResponseView,
> {
    match name {
        Some(n) => if existing.contains(name_key(n)) {
            Err(name_taken_error(n))
        } else {
            Ok(())
        },
        None => Ok(()),
    }
}

fn name_taken(name: &String) -> (e: ErrorResponse)
    ensures
        e@ == name_taken_error(name@),
{
    let mut message = String::from_str("Operator name '");
    message.append(name.as_str());
    message.append("' already exists");
    ErrorResponse::Validation(
        OperatorValidationError::FieldValidationError {
            field: String::from_str("name"),
            message,
            received: Some(name.clone()),
        },
    )
}

/// Checks the name of a request against the names in use.
pub fn validate_unique_operator_name(
    operator_name: &Option<String>,
    existing_operator_names: &StringHashSet,
) -> (r: Result<(), ErrorResponse>)
    ensures
        unit_result_view(r) == name_result(opt_text_of(*operator_name), existing_operator_names@),
{
    if let Some(name) = operator_name {
        let key = name_key_of(name.as_str());
        if existing_operator_names.contains(key.as_str()) {
            return Err(name_taken(name));
        }
    }
    Ok(())
}

/// The form of a TADIG code: five to nine characters, each an ASCII letter,
/// an ASCII digit or `_`.
pub open spec fn is_tadig_format(code: Seq<char>) -> bool {
    5 <= code.len() <= 9 && all_tadig_chars(code)
}

/// The error for a TADIG code of the wrong form.
pub open spec fn invalid_tadig_error(code: Seq<char>) -> ValidationErrorView {
    ValidationErrorView::InvalidTadigError {
        field: "tadig"@,
        received: code,
        expected: "5–9 chars, letters/digits/_ only"@,
    }
}

/// The error for a TADIG code that another operator already has.
pub open spec fn duplicate_tadig_error(code: Seq<char>) -> ValidationErrorView {
    ValidationErrorView::DuplicateTadigError { field: "tadig"@, received: code }
}

/// The first fault among the TADIG codes from index `i` on: a code is
/// faulty if it has not the form of a TADIG code, or else if it is already
/// in use.
pub open spec fn tadig_codes_fault_from(
    codes: Seq<Seq<char>>,
    existing: Set<Seq<char>>,
    i: int,
) -> Option<ValidationErrorView>
    decreases codes.len() - i,
{
    if i < 0 || i >= codes.len() {
        None
    } else if !is_tadig_format(codes[i]) {
        Some(invalid_tadig_error(codes[i]))
    } else if existing.contains(codes[i]) {
        Some(duplicate_tadig_error(codes[i]))
    } else {
        tadig_codes_fault_from(codes, existing, i + 1)
    }
}

/// What the check of a list of TADIG codes gives.
pub open spec fn tadig_codes_result(codes: Seq<Seq<char>>, existing: Set<Seq<char>>) -> Result<
    (),
    ErrorResponseView,
> {
    match tadig_codes_fault_from(codes, existing, 0) {
        Some(e) => Err(ErrorResponseView::Validation(e)),
        None => Ok(()),
    }
}

fn invalid_tadig(code: &str) -> (e: ErrorResponse)
    ensures
        e@ == ErrorResponseView::Validation(invalid_tadig_error(code@)),
{
    ErrorResponse::Validation(
        OperatorValidationError::InvalidTadigError {
            field: String::from_str("tadig"),
            received: String::from_str(code),
            expected: String::from_str("5–9 chars, letters/digits/_ only"),
        },
    )
}

fn duplicate_tadig(code: &str) -> (e: ErrorResponse)
    ensures
        e@ == ErrorResponseView::Validation(duplicate_tadig_error(code@)),
{
    ErrorResponse::Validation(
        OperatorValidationError::DuplicateTadigError {
            field: String::from_str("tadig"),
            received: String::from_str(code),
        },
    )
}

/// Checks a list of TADIG codes: each must have the form of a TADIG code and
/// must not be in use.
pub fn validate_unique_tadig_codes(tadig_codes: &[String], existing_tadig_codes: &StringHashSet) -> (r:
    Result<(), ErrorResponse>)
    ensures
        unit_result_view(r) == tadig_codes_result(texts_of(tadig_codes@), existing_tadig_codes@),
{
    let ghost t = texts_of(tadig_codes@);
    let mut i: usize = 0;
    while i < tadig_codes.len()
        invariant
            i <= tadig_codes.len(),
            t == texts_of(tadig_codes@),
            tadig_codes_fault_from(t, existing_tadig_codes@, 0) == tadig_codes_fault_from(
                t,
                existing_tadig_codes@,
                i as int,
            ),
        decreases tadig_codes.len() - i,
    {
        let code = tadig_codes[i].as_str();
        assert(code@ == t[i as int]);
        let n = code.unicode_len();
        let valid_chars = is_all_tadig_chars(code);
        if n < 5 || n > 9 || !valid_chars {
            return Err(invalid_tadig(code));
        }
        if existing_tadig_codes.contains(code) {
            return Err(duplicate_tadig(code));
        }
        i += 1;
    }
    Ok(())
}

/// The pattern that a TADIG code must match from its first character to its
/// last.
pub open spec fn tadig_pattern() -> Seq<char> {
    "^[A-Za-z0-9_]{5,9}$"@
}

/// `regex::Regex::new` on the pattern, then `Regex::is_match` on the text.
/// The pattern is the one of TADIG codes, which is anchored at both ends and
/// asks for five to nine characters of the class `[A-Za-z0-9_]`: the text
/// matches exactly if it has the form of a TADIG code.
#[verifier::external_body]
fn regex_is_match(pattern: &str, text: &str) -> (b: bool)
    requires
        pattern@ == tadig_pattern(),
    ensures
        b == is_tadig_format(text@),
{
    match regex::Regex::new(pattern) {
        Ok(re) => re.is_match(text),
        Err(_) => false,
    }
}

/// Whether `code` has the form of a TADIG code.
pub fn tadig_re_is_match(code: &str) -> (b: bool)
    ensures
        b == is_tadig_format(code@),
{
    regex_is_match("^[A-Za-z0-9_]{5,9}$", code)
}

/// What the checks of the identifiers of a request give against the
/// identifiers in use: the IMSI prefixes are checked first, then the MSISDN
/// prefixes, then the name, then the TADIG codes, and the first fault ends
/// the check. A field that the request does not give passes.
pub open spec fn identifiers_result(
    dup: DuplicateCheckerView,
    e212: Option<Seq<Seq<char>>>,
    e164: Option<Seq<Seq<char>>>,
    name: Option<Seq<char>>,
    tadig: Option<Seq<Seq<char>>>,
) -> Result<(), ErrorResponseView> {
    let imsi = numeric_codes_result(SubscriberIdKind::Imsi, "e212"@, e212, dup.imsi_prefixes);
    let msisdn = numeric_codes_result(SubscriberIdKind::Msisdn, "e164"@, e164, dup.msisdn_prefixes);
    let named = name_result(name, dup.operator_names);
    if imsi is Err {
        imsi
    } else if msisdn is Err {
        msisdn
    } else if named is Err {
        named
    } else {
        match tadig {
            Some(codes) => tadig_codes_result(codes, dup.tadig_codes),
            None => Ok(()),
        }
    }
}

impl PatchOperatorView {
    /// The name that the patch sets, if it sets one.
    pub open spec fn new_name(self) -> Option<Seq<char>> {
        match self.name {
            Some(Some(n)) => Some(n),
            _ => None,
        }
    }
}

/// What the check of a patch's identifiers gives against the identifiers in
/// use.
pub open spec fn patch_fields_result(dup: DuplicateCheckerView, patch: PatchOperatorView) -> Result<
    (),
    ErrorResponseView,
> {
    identifiers_result(dup, patch.e212, patch.e164, patch.new_name(), patch.tadig)
}

/// The slice of an optional list.
pub fn as_opt_slice(list: &Option<Vec<String>>) -> (r: Option<&[String]>)
    ensures
        opt_slice_texts(r) == opt_texts_of(*list),
{
    match list {
        Some(v) => Some(v.as_slice()),
        None => None,
    }
}

/// Checks the identifiers that a patch supplies: the form of each and that
/// none is in use.
pub fn validate_patch_fields(dup: &OperatorDuplicateChecker, patch: &PatchOperator) -> (r: Result<
    (),
    ErrorResponse,
>)
    ensures
        unit_result_view(r) == patch_fields_result(dup@, patch@),
{
    match check_numeric_codes(
        SubscriberIdKind::Imsi,
        "e212",
        as_opt_slice(&patch.e212),
        &dup.imsi_prefixes,
    ) {
        Ok(_) => {},
        Err(e) => {
            return Err(e);
        },
    }
    match check_numeric_codes(
        SubscriberIdKind::Msisdn,
        "e164",
        as_opt_slice(&patch.e164),
        &dup.msisdn_prefixes,
    ) {
        Ok(_) => {},
        Err(e) => {
            return Err(e);
        },
    }
    if let Some(Some(name)) = &patch.name {
        let key = name_key_of(name.as_str());
        if dup.operator_names.contains(key.as_str()) {
            return Err(name_taken(name));
        }
    }
    if let Some(list) = &patch.tadig {
        let ghost t = texts_of(list@);
        let mut i: usize = 0;
        while i < list.len()
            invariant
                i <= list.len(),
                patch.tadig == Some(*list),
                t == texts_of(list@),
                numeric_codes_result(
                    SubscriberIdKind::Imsi,
                    "e212"@,
                    patch@.e212,
                    dup@.imsi_prefixes,
                ) is Ok,
                numeric_codes_result(
                    SubscriberIdKind::Msisdn,
                    "e164"@,
                    patch@.e164,
                    dup@.msisdn_prefixes,
                ) is Ok,
                name_result(patch@.new_name(), dup@.operator_names) is Ok,
                tadig_codes_fault_from(t, dup@.tadig_codes, 0) == tadig_codes_fault_from(
                    t,
                    dup@.tadig_codes,
                    i as int,
                ),
            decreases list.len() - i,
        {
            let code = list[i].as_str();
            assert(code@ == t[i as int]);
            if !tadig_re_is_match(code) {
                return Err(invalid_tadig(code));
            }
            if dup.tadig_codes.contains(code) {
                return Err(duplicate_tadig(code));
            }
            i += 1;
        }
    }
    Ok(())
}

/// The identifiers that a request brings: its IMSI prefixes, its MSISDN
/// prefixes, the key of its name and its TADIG codes.
pub open spec fn request_identifiers(
    e212: Option<Seq<Seq<char>>>,
    e164: Option<Seq<Seq<char>>>,
    name: Option<Seq<char>>,
    tadig: Option<Seq<Seq<char>>>,
) -> DuplicateCheckerView {
    DuplicateCheckerView {
        imsi_prefixes: codes_of(e212),
        msisdn_prefixes: codes_of(e164),
        operator_names: name_keys_of(name),
        tadig_codes: codes_of(tadig),
    }
}

proof fn lemma_numeric_codes_pass(
    kind: SubscriberIdKind,
    field: Seq<char>,
    codes: Seq<Seq<char>>,
    existing: Set<Seq<char>>,
    i: int,
)
    requires
        0 <= i,
        numeric_codes_fault_from(kind, field, codes, existing, i) is None,
    ensures
        forall|j: int|
            i <= j < codes.len() ==> all_digits(#[trigger] codes[j]) && !existing.contains(codes[j]),
    decreases codes.len() - i,
{
    if i < codes.len() {
        lemma_numeric_codes_pass(kind, field, codes, existing, i + 1);
    }
}

proof fn lemma_tadig_codes_pass(codes: Seq<Seq<char>>, existing: Set<Seq<char>>, i: int)
    requires
        0 <= i,
        tadig_codes_fault_from(codes, existing, i) is None,
    ensures
        forall|j: int|
            i <= j < codes.len() ==> is_tadig_format(#[trigger] codes[j]) && !existing.contains(
                codes[j],
            ),
    decreases codes.len() - i,
{
    if i < codes.len() {
        lemma_tadig_codes_pass(codes, existing, i + 1);
    }
}

/// In a request that passes the checks of its identifiers every prefix is
/// made of digits alone, every TADIG code has the form of a TADIG code, and
/// no identifier of the request is among those in use.
pub proof fn lemma_identifiers_pass(
    dup: DuplicateCheckerView,
    e212: Option<Seq<Seq<char>>>,
    e164: Option<Seq<Seq<char>>>,
    name: Option<Seq<char>>,
    tadig: Option<Seq<Seq<char>>>,
)
    requires
        identifiers_result(dup, e212, e164, name, tadig) is Ok,
    ensures
        request_identifiers(e212, e164, name, tadig).disjoint(dup),
        e212 matches Some(list) ==> forall|j: int|
            0 <= j < list.len() ==> all_digits(#[trigger] list[j]),
        e164 matches Some(list) ==> forall|j: int|
            0 <= j < list.len() ==> all_digits(#[trigger] list[j]),
        tadig matches Some(list) ==> forall|j: int|
            0 <= j < list.len() ==> is_tadig_format(#[trigger] list[j]),
{
    if let Some(list) = e212 {
        lemma_numeric_codes_pass(SubscriberIdKind::Imsi, "e212"@, list, dup.imsi_prefixes, 0);
        assert forall|c: Seq<char>| !(codes_of(e212).contains(c) && dup.imsi_prefixes.contains(c)) by {
            if codes_of(e212).contains(c) {
                let j = choose|j: int| 0 <= j < list.len() && list[j] == c;
                assert(!dup.imsi_prefixes.contains(list[j]));
            }
        }
    }
    if let Some(list) = e164 {
        lemma_numeric_codes_pass(SubscriberIdKind::Msisdn, "e164"@, list, dup.msisdn_prefixes, 0);
        assert forall|c: Seq<char>| !(codes_of(e164).contains(c) && dup.msisdn_prefixes.contains(
            c,
        )) by {
            if codes_of(e164).contains(c) {
                let j = choose|j: int| 0 <= j < list.len() && list[j] == c;
                assert(!dup.msisdn_prefixes.contains(list[j]));
            }
        }
    }
    if let Some(list) = tadig {
        lemma_tadig_codes_pass(list, dup.tadig_codes, 0);
        assert forall|c: Seq<char>| !(codes_of(tadig).contains(c) && dup.tadig_codes.contains(c)) by {
            if codes_of(tadig).contains(c) {
                let j = choose|j: int| 0 <= j < list.len() && list[j] == c;
                assert(!dup.tadig_codes.contains(list[j]));
            }
        }
    }
}

} // verus!
