//! Bodies of the requests sent to the daemon's control interface: named
//! fields, with absent values left out.

use vstd::prelude::*;
use vstd::std_specs::iter::IteratorSpec;
use crate::codec::{
    base64_encodable, base64_standard, base64_standard_text, fits_base64, hex_upper, upper_hex,
};

verus! {

/// The value of a request field.
#[derive(Debug, Clone, PartialEq, Eq)]
pub enum FieldValue {
    /// No value.
    Null,
    Text(String),
    Number(u64),
    List(Vec<String>),
}

/// One named field of a request body.
#[derive(Debug, Clone, PartialEq, Eq)]
pub struct Field {
    pub name: String,
    pub value: FieldValue,
}

/// A field value as a mathematical value.
pub enum FieldValueView {
    Null,
    Text(Seq<char>),
    Number(u64),
    List(Seq<Seq<char>>),
}

/// A field as a mathematical value.
pub struct FieldView {
    pub name: Seq<char>,
    pub value: FieldValueView,
}

/// The texts of a list of strings.
pub open spec fn texts(list: Seq<String>) -> Seq<Seq<char>> {
    list.map_values(|s: String| s@)
}

impl View for FieldValue {
    type V = FieldValueView;

    open spec fn view(&self) -> FieldValueView {
        match *self {
            FieldValue::Null => FieldValueView::Null,
            FieldValue::Text(s) => FieldValueView::Text(s@),
            FieldValue::Number(n) => FieldValueView::Number(n),
            FieldValue::List(l) => FieldValueView::List(texts(l@)),
        }
    }
}

impl View for Field {
    type V = FieldView;

    open spec fn view(&self) -> FieldView {
        FieldView { name: self.name@, value: self.value@ }
    }
}

/// The fields of a body as mathematical values.
pub open spec fn body_view(fields: Seq<Field>) -> Seq<FieldView> {
    fields.map_values(|f: Field| f@)
}

/// The fields that carry a value, in their order.
pub open spec fn without_nulls(fields: Seq<FieldView>) -> Seq<FieldView> {
    fields.filter(|f: FieldView| !(f.value is Null))
}

/// Drops every field without a value and keeps the others in order.
pub fn skip_nulls(fields: Vec<Field>) -> (r: Vec<Field>)
    ensures
        body_view(r@) == without_nulls(body_view(fields@)),
{
    let ghost all = body_view(fields@);
    let ghost keep = |f: FieldView| !(f.value is Null);
    let mut out: Vec<Field> = Vec::new();
    for f in it: fields.into_iter()
        invariant
            it.seq() == fields@,
            all == body_view(fields@),
            keep == |f: FieldView| !(f.value is Null),
            body_view(out@) == all.take(it.index() as int).filter(keep),
    {
        proof {
            assert(all.take(it.index() + 1) =~= all.take(it.index() as int).push(f@));
            lemma_filter_push(all.take(it.index() as int), f@, keep);
        }
        match f.value {
            FieldValue::Null => {},
            _ => {
                out.push(f);
            },
        }
    }
    assert(all.take(all.len() as int) =~= all);
    out
}

/// Filtering a sequence with one more element keeps or drops that element
/// and leaves the rest of the result as it was.
proof fn lemma_filter_push(s: Seq<FieldView>, x: FieldView, keep: spec_fn(FieldView) -> bool)
    ensures
        s.push(x).filter(keep) == if keep(x) {
            s.filter(keep).push(x)
        } else {
            s.filter(keep)
        },
{
    reveal(Seq::filter);
    assert(s.push(x).drop_last() =~= s);
}

/// No field of a body stripped of its absent values is without a value.
pub proof fn lemma_without_nulls_has_no_null(fields: Seq<FieldView>)
    ensures
        forall|i: int|
            0 <= i < without_nulls(fields).len() ==> !(#[trigger] without_nulls(
                fields,
            )[i].value is Null),
{
}

/// A text field.
pub open spec fn text_field(name: Seq<char>, value: Seq<char>) -> FieldView {
    FieldView { name, value: FieldValueView::Text(value) }
}

/// The recovery window as a field: a number, or no value.
pub open spec fn recovery_window_field(recovery_window: Option<usize>) -> FieldView {
    FieldView {
        name: "recovery_window"@,
        value: match recovery_window {
            Some(n) => FieldValueView::Number(n as u64),
            None => FieldValueView::Null,
        },
    }
}

/// The body of an unlock request: the secret in base64 and, where one is
/// configured, the recovery window.
pub open spec fn unlock_body(secret: Seq<u8>, recovery_window: Option<usize>) -> Seq<FieldView> {
    without_nulls(
        seq![
            text_field("wallet_password"@, base64_standard_text(secret)),
            recovery_window_field(recovery_window),
        ],
    )
}

/// The body of a request to initialise the wallet: the secret in base64 and
/// the seed phrase.
pub open spec fn init_body(secret: Seq<u8>, mnemonic: Seq<Seq<char>>) -> Seq<FieldView> {
    seq![
        text_field("wallet_password"@, base64_standard_text(secret)),
        FieldView { name: "cipher_seed_mnemonic"@, value: FieldValueView::List(mnemonic) },
    ]
}

/// The body of a request to restore channels from a backup: the backup in
/// base64.
pub open spec fn restore_body(backup: Seq<u8>) -> Seq<FieldView> {
    seq![text_field("multi_chan_backup"@, base64_standard_text(backup))]
}

/// An unlock request without a recovery window holds the password alone; one
/// with a recovery window holds both fields.
pub proof fn lemma_unlock_body_fields(secret: Seq<u8>, recovery_window: Option<usize>)
    ensures
        unlock_body(secret, recovery_window) == match recovery_window {
            None => seq![text_field("wallet_password"@, base64_standard_text(secret))],
            Some(n) => seq![
                text_field("wallet_password"@, base64_standard_text(secret)),
                recovery_window_field(Some(n)),
            ],
        },
{
    let keep = |f: FieldView| !(f.value is Null);
    let password = text_field("wallet_password"@, base64_standard_text(secret));
    let window = recovery_window_field(recovery_window);
    let none = Seq::<FieldView>::empty();
    reveal(Seq::filter);
    lemma_filter_push(none, password, keep);
    lemma_filter_push(none.push(password), window, keep);
    assert(seq![password, window] =~= none.push(password).push(window));
}

/// Builds a text field that holds `bytes` in base64.
fn base64_field(name: &str, bytes: &[u8]) -> (r: Field)
    requires
        base64_encodable(bytes@.len()),
    ensures
        r@ == text_field(name@, base64_standard_text(bytes@)),
{
    Field { name: String::from_str(name), value: FieldValue::Text(base64_standard(bytes)) }
}

/// Builds the body of an unlock request, or `None` for a secret whose base64
/// text would not fit in memory.
pub fn unlock_request(secret: &[u8], recovery_window: Option<usize>) -> (r: Option<Vec<Field>>)
    ensures
        match r {
            Some(body) => base64_encodable(secret@.len()) && body_view(body@) == unlock_body(
                secret@,
                recovery_window,
            ),
            None => !base64_encodable(secret@.len()),
        },
{
    if !fits_base64(secret.len()) {
        return None;
    }
    let mut fields: Vec<Field> = Vec::new();
    fields.push(base64_field("wallet_password", secret));
    fields.push(
        Field {
            name: String::from_str("recovery_window"),
            value: match recovery_window {
                Some(n) => FieldValue::Number(n as u64),
                None => FieldValue::Null,
            },
        },
    );
    assert(body_view(fields@) =~= seq![
        text_field("wallet_password"@, base64_standard_text(secret@)),
        recovery_window_field(recovery_window),
    ]);
    Some(skip_nulls(fields))
}

/// Builds the body of a request to initialise the wallet, or `None` for a
/// secret whose base64 text would not fit in memory.
pub fn init_wallet_request(secret: &[u8], mnemonic: Vec<String>) -> (r: Option<Vec<Field>>)
    ensures
        match r {
            Some(body) => base64_encodable(secret@.len()) && body_view(body@) == init_body(
                secret@,
                texts(mnemonic@),
            ),
            None => !base64_encodable(secret@.len()),
        },
{
    if !fits_base64(secret.len()) {
        return None;
    }
    let mut fields: Vec<Field> = Vec::new();
    fields.push(base64_field("wallet_password", secret));
    fields.push(
        Field { name: String::from_str("cipher_seed_mnemonic"), value: FieldValue::List(mnemonic) },
    );
    Some(fields)
}

/// Builds the body of a restore request, or `None` for a backup whose base64
/// text would not fit in memory.
pub fn restore_request(backup: &[u8]) -> (r: Option<Vec<Field>>)
    ensures
        match r {
            Some(body) => base64_encodable(backup@.len()) && body_view(body@) == restore_body(
                backup@,
            ),
            None => !base64_encodable(backup@.len()),
        },
{
    if !fits_base64(backup.len()) {
        return None;
    }
    let mut fields: Vec<Field> = Vec::new();
    fields.push(base64_field("multi_chan_backup", backup));
    Some(fields)
}

/// The request header that carries the macaroon: its name and the macaroon
/// in upper-case hexadecimal.
pub open spec fn macaroon_header_text(macaroon: Seq<u8>) -> Seq<char> {
    "Grpc-Metadata-macaroon: "@ + upper_hex(macaroon)
}

/// The request header that authenticates a call to the control interface, or
/// `None` for a macaroon whose hexadecimal text would not fit in memory.
pub fn macaroon_header(macaroon: &[u8]) -> (r: Option<String>)
    ensures
        match r {
            Some(h) => macaroon@.len() * 2 < usize::MAX && h@ == macaroon_header_text(macaroon@),
            None => macaroon@.len() * 2 >= usize::MAX,
        },
{
    if macaroon.len() > (usize::MAX - 1) / 2 {
        return None;
    }
    let mut r = String::from_str("Grpc-Metadata-macaroon: ");
    let digits = hex_upper(macaroon);
    r.append(digits.as_str());
    Some(r)
}

/// The JSON object that `serde_json` writes for a body, or `None` where it
/// reports an error.
pub uninterp spec fn json_object_text(fields: Seq<FieldView>) -> Option<Seq<char>>;

/// `serde_json::Error`, of which only its presence is read.
#[verifier::external_type_specification]
#[verifier::external_body]
pub struct ExJsonError(serde_json::Error);

/// Collects the fields into a `serde_json::Map`, each value as the
/// `serde_json::Value` of its kind, and writes the map with
/// `serde_json::to_string`. Trusted: the outcome depends on the fields alone.
#[verifier::external_body]
fn json_object(fields: &Vec<Field>) -> (r: Result<String, serde_json::Error>)
    ensures
        match r {
            Ok(text) => json_object_text(body_view(fields@)) == Some(text@),
            Err(_) => json_object_text(body_view(fields@)) is None,
        },
{
    let object: serde_json::Map<String, serde_json::Value> = fields
        .iter()
        .map(|f| {
            let value = match &f.value {
                FieldValue::Null => serde_json::Value::Null,
                FieldValue::Text(text) => serde_json::Value::from(text.as_str()),
                FieldValue::Number(n) => serde_json::Value::from(*n),
                FieldValue::List(items) => serde_json::Value::from(items.clone()),
            };
            (f.name.clone(), value)
        })
        .collect();
    serde_json::to_string(&object)
}

/// Writes a request body as the text of a JSON object.
pub fn body_text(fields: &Vec<Field>) -> (r: Option<String>)
    ensures
        crate::text::opt_text(r) == json_object_text(body_view(fields@)),
{
    match json_object(fields) {
        Ok(text) => Some(text),
        Err(_) => None,
    }
}

} // verus!
