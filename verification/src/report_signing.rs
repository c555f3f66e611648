//! Local Report D integrity seal.
//!
//! Canonical JSON of the customer-visible diagnostic fields is hashed with
//! SHA-256 and signed with an Ed25519 key generated on this PC for this scan.
//! The public key travels with the report, so anyone can check that the JSON
//! was not altered. That is integrity, not identity: it does not prove who
//! issued the document, is not cloud-authenticated, and is not Authenticode.

use vstd::prelude::*;
use vstd::utf8::encode_utf8;
use crate::NamedValue;
use crate::diagnostics::{CustomerAdvanceScan, DomainCoverageRow, TelemetryGroup};
use crate::json::{
    append_item, append_pair, hex_digit, json_array, json_bool, json_bool_text, json_member,
    json_null, json_null_text, json_opt_str, json_opt_u32, json_str, json_string, json_u64,
    escape, lemma_join_push, push_json_string,
};
use crate::numtext::dec;
use crate::text::{append_all, append_str, chars_of, is_hex_digit, join, seq_eq, string_of};
use ed25519_dalek::{Signature, Signer, SigningKey, Verifier, VerifyingKey};
use rand_core::{OsRng, RngCore};
use qrcode::QrCode;
use qrcode::render::svg::Color as SvgColor;
use sha2::{Digest, Sha256};

verus! {

/// Printed on Report D next to the QR. Honest about what the seal is not.
pub const LOCAL_SEAL_NOTICE: &'static str = "Local integrity seal. This proves the Report D JSON was not altered after this scan on this PC. It is not cloud-authenticated, not Authenticode, and not a CYVORIQ certificate.";

pub const SEAL_SCHEME: &'static str = "cyvra-erd-ed25519-v1";

/// What the QR payload starts with, before the digest.
pub const QR_PREFIX: &'static str = "CYVRA-ERD:1:";
/// The smallest width and height, in pixels, of the printed QR code.
pub const QR_MIN_PIXELS: u32 = 168;
/// The report's ink colour, used for the QR modules.
pub const QR_DARK: &'static str = "#0b1f3a";
/// The report's paper colour, used behind the QR modules.
pub const QR_LIGHT: &'static str = "#ffffff";
/// What `seal` answers when no signing key could be drawn.
pub const NO_RANDOMNESS: &'static str = "the operating system could not supply randomness for the signing key";

/// Drawn where the payload cannot be QR-encoded.
pub const QR_UNAVAILABLE_SVG: &'static str = "<svg xmlns=\"http://www.w3.org/2000/svg\" viewBox=\"0 0 168 168\"><rect width=\"168\" height=\"168\" fill=\"#ffffff\"/><text x=\"8\" y=\"84\" font-size=\"9\" fill=\"#0b1f3a\">QR unavailable</text></svg>";

#[derive(Debug, Clone, PartialEq, Eq)]
pub struct IntegritySeal {
    pub scheme: &'static str,
    pub digest_hex: String,
    pub public_key_hex: String,
    pub signature_hex: String,
    pub qr_payload: String,
    pub qr_svg: String,
    pub canonical_json: String,
    pub notice: &'static str,
}

// ---------------------------------------------------------------------------
// Names for what the cryptographic and QR crates compute.
// ---------------------------------------------------------------------------

/// The SHA-256 digest of a byte string.
pub uninterp spec fn sha256_digest(bytes: Seq<u8>) -> Seq<u8>;

/// The Ed25519 public key of a 32-byte secret key.
pub uninterp spec fn ed25519_public_key(secret: Seq<u8>) -> Seq<u8>;

/// The (deterministic, RFC 8032) Ed25519 signature of `message` under `secret`.
pub uninterp spec fn ed25519_signature(secret: Seq<u8>, message: Seq<u8>) -> Seq<u8>;

/// Whether 32 bytes decompress to a curve point usable as a public key.
pub uninterp spec fn ed25519_key_decodes(public_key: Seq<u8>) -> bool;

/// Whether `signature` verifies over `message` under `public_key`.
pub uninterp spec fn ed25519_accepts(public_key: Seq<u8>, message: Seq<u8>, signature: Seq<u8>) -> bool;

/// The SVG rendering of the QR code for `payload`, at least `min_pixels`
/// square, drawn in the `dark` and `light` colours; none where the payload
/// does not fit in a QR code.
pub uninterp spec fn qr_svg_render(payload: Seq<u8>, min_pixels: u32, dark: Seq<char>, light: Seq<char>) -> Option<Seq<char>>;

/// `sha2::Sha256::digest`: the 32-byte SHA-256 digest of `bytes`.
#[verifier::external_body]
fn sha256(bytes: &[u8]) -> (d: Vec<u8>)
    ensures
        d@ == sha256_digest(bytes@),
        d@.len() == 32,
{
    Sha256::digest(bytes).to_vec()
}

/// `rand_core::OsRng::try_fill_bytes` into a 32-byte Ed25519 secret key.
/// Nothing is promised of the bytes beyond their number; where the operating
/// system cannot supply randomness the result is none.
#[verifier::external_body]
fn generate_secret() -> (secret: Option<Vec<u8>>)
    ensures
        secret matches Some(bytes) ==> bytes@.len() == 32,
{
    let mut bytes = [0u8; 32];
    match OsRng.try_fill_bytes(&mut bytes) {
        Ok(()) => Some(bytes.to_vec()),
        Err(_) => None,
    }
}

/// `SigningKey::from_bytes(secret).verifying_key()`: the 32-byte public key of
/// a secret. The key is the compression of a curve point, so
/// `VerifyingKey::from_bytes` accepts it.
#[verifier::external_body]
fn ed25519_public(secret: &[u8]) -> (public_key: Vec<u8>)
    requires
        secret@.len() == 32,
    ensures
        public_key@ == ed25519_public_key(secret@),
        public_key@.len() == 32,
        ed25519_key_decodes(public_key@),
{
    let mut bytes = [0u8; 32];
    bytes.copy_from_slice(secret);
    SigningKey::from_bytes(&bytes).verifying_key().to_bytes().to_vec()
}

/// `Signer::sign` of `SigningKey::from_bytes(secret)`: the 64-byte signature.
/// Ed25519 signing is deterministic, and a signature made with a secret
/// verifies under that secret's public key.
#[verifier::external_body]
fn ed25519_sign(secret: &[u8], message: &[u8]) -> (signature: Vec<u8>)
    requires
        secret@.len() == 32,
    ensures
        signature@ == ed25519_signature(secret@, message@),
        signature@.len() == 64,
        ed25519_accepts(ed25519_public_key(secret@), message@, signature@),
{
    let mut bytes = [0u8; 32];
    bytes.copy_from_slice(secret);
    SigningKey::from_bytes(&bytes).sign(message).to_bytes().to_vec()
}

/// `VerifyingKey::from_bytes`: whether 32 bytes are a usable public key.
#[verifier::external_body]
fn ed25519_key_valid(public_key: &[u8]) -> (ok: bool)
    requires
        public_key@.len() == 32,
    ensures
        ok == ed25519_key_decodes(public_key@),
{
    let mut bytes = [0u8; 32];
    bytes.copy_from_slice(public_key);
    VerifyingKey::from_bytes(&bytes).is_ok()
}

/// `Verifier::verify` of the decoded public key over `message`, with the
/// signature taken from its 64 bytes.
#[verifier::external_body]
fn ed25519_verify(public_key: &[u8], message: &[u8], signature: &[u8]) -> (ok: bool)
    requires
        public_key@.len() == 32,
        signature@.len() == 64,
        ed25519_key_decodes(public_key@),
    ensures
        ok == ed25519_accepts(public_key@, message@, signature@),
{
    let mut key = [0u8; 32];
    key.copy_from_slice(public_key);
    let mut sig = [0u8; 64];
    sig.copy_from_slice(signature);
    match VerifyingKey::from_bytes(&key) {
        Ok(k) => k.verify(message, &Signature::from_bytes(&sig)).is_ok(),
        Err(_) => false,
    }
}

/// `QrCode::new` rendered as SVG with `min_dimensions(min_pixels, min_pixels)`
/// and the given dark and light colours, or none where the payload does not
/// fit a QR code. The size is bounded so that the renderer's pixel
/// arithmetic stays within `u32`.
#[verifier::external_body]
fn qr_render(payload: &[u8], min_pixels: u32, dark: &str, light: &str) -> (svg: Option<String>)
    requires
        min_pixels <= 4096,
    ensures
        match svg {
            Some(s) => qr_svg_render(payload@, min_pixels, dark@, light@) == Some(s@),
            None => qr_svg_render(payload@, min_pixels, dark@, light@) is None,
        },
{
    match QrCode::new(payload) {
        Ok(code) => Some(
            code.render::<SvgColor>()
                .min_dimensions(min_pixels, min_pixels)
                .dark_color(SvgColor(dark))
                .light_color(SvgColor(light))
                .build(),
        ),
        Err(_) => None,
    }
}

// ---------------------------------------------------------------------------
// Canonical JSON.
// ---------------------------------------------------------------------------

pub open spec fn opt_text_json(value: Option<String>) -> Seq<char> {
    match value {
        Some(s) => json_string(s@),
        None => json_null(),
    }
}

pub open spec fn named_value_json(row: NamedValue) -> Seq<char> {
    seq!['{'] + json_member("label"@, json_string(row.label@), true) + json_member(
        "value"@,
        json_string(row.value@),
        false,
    ) + seq!['}']
}

pub open spec fn named_values_json(rows: Seq<NamedValue>) -> Seq<char> {
    json_array(Seq::new(rows.len(), |i: int| named_value_json(rows[i])))
}

pub open spec fn string_array_json(items: Seq<String>) -> Seq<char> {
    json_array(Seq::new(items.len(), |i: int| json_string(items[i]@)))
}

pub open spec fn domain_json(d: DomainCoverageRow) -> Seq<char> {
    seq!['{'] + json_member("domain"@, json_string(d.domain@), true) + json_member(
        "awarded"@,
        dec(d.awarded as nat),
        false,
    ) + json_member("assessed"@, dec(d.assessed as nat), false) + json_member(
        "notAssessable"@,
        dec(d.not_assessable as nat),
        false,
    ) + json_member("weight"@, dec(d.weight as nat), false) + json_member(
        "state"@,
        json_string(d.state@),
        false,
    ) + json_member("confidence"@, json_string(d.confidence@), false) + json_member(
        "note"@,
        json_string(d.note@),
        false,
    ) + seq!['}']
}

pub open spec fn domains_json(domains: Seq<DomainCoverageRow>) -> Seq<char> {
    json_array(Seq::new(domains.len(), |i: int| domain_json(domains[i])))
}

pub open spec fn group_json(g: TelemetryGroup) -> Seq<char> {
    seq!['{'] + json_member("title"@, json_string(g.title@), true) + json_member(
        "note"@,
        opt_text_json(g.note),
        false,
    ) + json_member("rows"@, named_values_json(g.rows@), false) + seq!['}']
}

pub open spec fn groups_json(groups: Seq<TelemetryGroup>) -> Seq<char> {
    json_array(Seq::new(groups.len(), |i: int| group_json(groups[i])))
}

/// The scalar members of Report D, in order.
#[verifier::opaque]
pub open spec fn canonical_head(scan: CustomerAdvanceScan) -> Seq<char> {
    json_member("schemaVersion"@, json_string(scan.schema_version@), true) + json_member(
        "elevationState"@,
        json_string(scan.elevation_state@),
        false,
    ) + json_member("elevationLabel"@, json_string(scan.elevation_label@), false) + json_member(
        "benchmarksConsented"@,
        json_bool_text(scan.benchmarks_consented),
        false,
    ) + json_member(
        "writeBenchmarkConsented"@,
        json_bool_text(scan.write_benchmark_consented),
        false,
    ) + json_member("bytesWritten"@, dec(scan.bytes_written as nat), false) + json_member(
        "destructiveOperationsEnabled"@,
        json_bool_text(scan.destructive_operations_enabled),
        false,
    ) + json_member("contentInspected"@, json_bool_text(scan.content_inspected), false)
        + json_member("boundaryNote"@, json_string(scan.boundary_note@), false) + json_member(
        "temporaryFilesNote"@,
        json_string(scan.temporary_files_note@),
        false,
    )
}

/// The grading members of Report D, in order.
#[verifier::opaque]
pub open spec fn canonical_grade(scan: CustomerAdvanceScan) -> Seq<char> {
    json_member("coveragePercent"@, dec(scan.coverage_percent as nat), false) + json_member(
        "indexPercent"@,
        match scan.index_percent {
            Some(n) => dec(n as nat),
            None => json_null(),
        },
        false,
    ) + json_member("provisional"@, json_bool_text(scan.provisional), false) + json_member(
        "gradeLabel"@,
        json_string(scan.grade_label@),
        false,
    ) + json_member("gradeCondition"@, json_string(scan.grade_condition@), false) + json_member(
        "gradeObservation"@,
        match scan.grade_observation {
            Some(s) => json_string(s@),
            None => json_null(),
        },
        false,
    ) + json_member("gradeWithheld"@, json_bool_text(scan.grade_withheld), false) + json_member(
        "gradeWithheldReason"@,
        opt_text_json(scan.grade_withheld_reason),
        false,
    ) + json_member("gradingEngine"@, json_string(scan.grading_engine@), false) + json_member(
        "gradingRubric"@,
        json_string(scan.grading_rubric@),
        false,
    ) + json_member("issuanceNotice"@, json_string(scan.issuance_notice@), false)
}

/// The tables of Report D, in order.
#[verifier::opaque]
pub open spec fn canonical_tables(scan: CustomerAdvanceScan) -> Seq<char> {
    json_member("coverageRows"@, named_values_json(scan.coverage_rows@), false) + json_member(
        "coverageDomains"@,
        domains_json(scan.coverage_domains@),
        false,
    ) + json_member("telemetryGroups"@, groups_json(scan.telemetry_groups@), false)
        + json_member("notAssessable"@, string_array_json(scan.not_assessable@), false)
        + json_member("methodRows"@, named_values_json(scan.method_rows@), false) + json_member(
        "rubricRows"@,
        named_values_json(scan.rubric_rows@),
        false,
    )
}

/// The canonical JSON text of a Report D payload: one object with the
/// documentary fields in a fixed order and no whitespace. `ok` and `message`
/// are not part of it.
#[verifier::opaque]
pub open spec fn canonical_spec(scan: CustomerAdvanceScan) -> Seq<char> {
    seq!['{'] + canonical_head(scan) + canonical_grade(scan) + canonical_tables(scan) + seq!['}']
}

proof fn lemma_escape_append(a: Seq<char>, b: Seq<char>)
    ensures
        escape(a + b) == escape(a) + escape(b),
        escape(b).len() >= b.len(),
    decreases b.len(),
{
    if b.len() == 0 {
        assert(a + b =~= a);
        assert(escape(a) + escape(b) =~= escape(a));
    } else {
        let front = b.drop_last();
        lemma_escape_append(a, front);
        assert((a + b).drop_last() =~= a + front);
        assert((a + b).last() == b.last());
        assert(escape(a + b) =~= escape(a) + escape(b));
    }
}

#[verifier::spinoff_prover]
#[verifier::rlimit(100)]
proof fn lemma_canonical_opens_and_closes(scan: CustomerAdvanceScan)
    ensures
        canonical_spec(scan).take(17) == "{\"schemaVersion\":"@,
        canonical_spec(scan).last() == '}',
{
    reveal(canonical_spec);
    reveal(canonical_head);
    reveal_strlit("{\"schemaVersion\":");
    reveal_strlit("schemaVersion");
    assert(escape("schemaVersion"@) =~= "schemaVersion"@) by {
        reveal_with_fuel(escape, 14);
    }
    let rest = canonical_head(scan).skip(16) + canonical_grade(scan) + canonical_tables(scan) + seq!['}'];
    assert(canonical_head(scan) =~= json_string("schemaVersion"@) + seq![':'] + canonical_head(scan).skip(16));
    assert(canonical_spec(scan) =~= seq!['{'] + json_string("schemaVersion"@) + seq![':'] + rest);
    assert(canonical_spec(scan).take(17) =~= "{\"schemaVersion\":"@);
}

#[verifier::spinoff_prover]
#[verifier::rlimit(100)]
proof fn lemma_head_grows_with_the_note(scan: CustomerAdvanceScan, extended: CustomerAdvanceScan)
    requires
        extended == (CustomerAdvanceScan { boundary_note: extended.boundary_note, ..scan }),
        json_string(scan.boundary_note@).len() < json_string(extended.boundary_note@).len(),
    ensures
        canonical_spec(scan).len() < canonical_spec(extended).len(),
{
    reveal(canonical_spec);
    reveal(canonical_head);
    assert(canonical_grade(extended) == canonical_grade(scan)) by {
        reveal(canonical_grade);
    }
    assert(canonical_tables(extended) == canonical_tables(scan)) by {
        reveal(canonical_tables);
    }
}

/// The canonical text is one JSON object that opens with the schema
/// version, and writing more onto the boundary note always changes it.
#[verifier::spinoff_prover]
pub proof fn canonical_text_is_framed_and_tracks_the_note(
    scan: CustomerAdvanceScan,
    extended: CustomerAdvanceScan,
)
    requires
        extended == (CustomerAdvanceScan { boundary_note: extended.boundary_note, ..scan }),
        scan.boundary_note@.len() < extended.boundary_note@.len(),
        scan.boundary_note@ == extended.boundary_note@.take(scan.boundary_note@.len() as int),
    ensures
        canonical_spec(scan).take(17) == "{\"schemaVersion\":"@,
        canonical_spec(scan).last() == '}',
        canonical_spec(extended) != canonical_spec(scan),
{
    lemma_canonical_opens_and_closes(scan);
    let n = scan.boundary_note@;
    let n2 = extended.boundary_note@;
    let extra = n2.skip(n.len() as int);
    assert(n + extra =~= n2);
    lemma_escape_append(n, extra);
    lemma_head_grows_with_the_note(scan, extended);
}

fn json_opt_owned(value: &Option<String>) -> (out: Vec<char>)
    ensures
        out@ == opt_text_json(*value),
{
    match value {
        Some(s) => {
            let v = chars_of(s.as_str());
            let mut out: Vec<char> = Vec::new();
            push_json_string(&mut out, &v);
            assert(out@ =~= json_string(s@));
            out
        },
        None => json_null_text(),
    }
}

fn json_named_value(row: &NamedValue) -> (out: Vec<char>)
    ensures
        out@ == named_value_json(*row),
{
    let mut out: Vec<char> = Vec::new();
    out.push('{');
    let label = json_str(row.label.as_str());
    append_pair(&mut out, "label", &label, true);
    let value = json_str(row.value.as_str());
    append_pair(&mut out, "value", &value, false);
    out.push('}');
    assert(out@ =~= named_value_json(*row));
    out
}

fn json_named_values(rows: &Vec<NamedValue>) -> (out: Vec<char>)
    ensures
        out@ == named_values_json(rows@),
{
    let ghost parts = Seq::new(rows@.len(), |i: int| named_value_json(rows@[i]));
    let mut out: Vec<char> = Vec::new();
    out.push('[');
    let mut i: usize = 0;
    while i < rows.len()
        invariant
            i <= rows.len(),
            parts == Seq::new(rows@.len(), |k: int| named_value_json(rows@[k])),
            out@ == seq!['['] + join(parts.take(i as int), seq![',']),
        decreases rows.len() - i,
    {
        let item = json_named_value(&rows[i]);
        append_item(&mut out, &item, i);
        proof {
            lemma_join_push(parts.take(i as int), parts[i as int], seq![',']);
            assert(parts.take(i + 1) =~= parts.take(i as int).push(parts[i as int]));
        }
        i += 1;
    }
    out.push(']');
    assert(parts.take(rows.len() as int) =~= parts);
    assert(out@ =~= named_values_json(rows@));
    out
}

fn json_string_array(items: &Vec<String>) -> (out: Vec<char>)
    ensures
        out@ == string_array_json(items@),
{
    let ghost parts = Seq::new(items@.len(), |i: int| json_string(items@[i]@));
    let mut out: Vec<char> = Vec::new();
    out.push('[');
    let mut i: usize = 0;
    while i < items.len()
        invariant
            i <= items.len(),
            parts == Seq::new(items@.len(), |k: int| json_string(items@[k]@)),
            out@ == seq!['['] + join(parts.take(i as int), seq![',']),
        decreases items.len() - i,
    {
        let item = json_str(items[i].as_str());
        append_item(&mut out, &item, i);
        proof {
            lemma_join_push(parts.take(i as int), parts[i as int], seq![',']);
            assert(parts.take(i + 1) =~= parts.take(i as int).push(parts[i as int]));
        }
        i += 1;
    }
    out.push(']');
    assert(parts.take(items.len() as int) =~= parts);
    assert(out@ =~= string_array_json(items@));
    out
}

fn json_domain(d: &DomainCoverageRow) -> (out: Vec<char>)
    ensures
        out@ == domain_json(*d),
{
    let mut out: Vec<char> = Vec::new();
    out.push('{');
    append_pair(&mut out, "domain", &json_str(d.domain.as_str()), true);
    append_pair(&mut out, "awarded", &json_u64(d.awarded as u64), false);
    append_pair(&mut out, "assessed", &json_u64(d.assessed as u64), false);
    append_pair(&mut out, "notAssessable", &json_u64(d.not_assessable as u64), false);
    append_pair(&mut out, "weight", &json_u64(d.weight as u64), false);
    append_pair(&mut out, "state", &json_str(d.state.as_str()), false);
    append_pair(&mut out, "confidence", &json_str(d.confidence.as_str()), false);
    append_pair(&mut out, "note", &json_str(d.note.as_str()), false);
    out.push('}');
    assert(out@ =~= domain_json(*d));
    out
}

#[verifier::spinoff_prover]
fn json_domains(domains: &Vec<DomainCoverageRow>) -> (out: Vec<char>)
    ensures
        out@ == domains_json(domains@),
{
    let ghost parts = Seq::new(domains@.len(), |i: int| domain_json(domains@[i]));
    let mut out: Vec<char> = Vec::new();
    out.push('[');
    let mut i: usize = 0;
    while i < domains.len()
        invariant
            i <= domains.len(),
            parts == Seq::new(domains@.len(), |k: int| domain_json(domains@[k])),
            out@ == seq!['['] + join(parts.take(i as int), seq![',']),
        decreases domains.len() - i,
    {
        let item = json_domain(&domains[i]);
        append_item(&mut out, &item, i);
        proof {
            lemma_join_push(parts.take(i as int), parts[i as int], seq![',']);
            assert(parts.take(i + 1) =~= parts.take(i as int).push(parts[i as int]));
        }
        i += 1;
    }
    out.push(']');
    assert(parts.take(domains.len() as int) =~= parts);
    assert(out@ =~= domains_json(domains@));
    out
}

fn json_group(g: &TelemetryGroup) -> (out: Vec<char>)
    ensures
        out@ == group_json(*g),
{
    let mut out: Vec<char> = Vec::new();
    out.push('{');
    append_pair(&mut out, "title", &json_str(g.title.as_str()), true);
    append_pair(&mut out, "note", &json_opt_owned(&g.note), false);
    append_pair(&mut out, "rows", &json_named_values(&g.rows), false);
    out.push('}');
    assert(out@ =~= group_json(*g));
    out
}

fn json_groups(groups: &Vec<TelemetryGroup>) -> (out: Vec<char>)
    ensures
        out@ == groups_json(groups@),
{
    let ghost parts = Seq::new(groups@.len(), |i: int| group_json(groups@[i]));
    let mut out: Vec<char> = Vec::new();
    out.push('[');
    let mut i: usize = 0;
    while i < groups.len()
        invariant
            i <= groups.len(),
            parts == Seq::new(groups@.len(), |k: int| group_json(groups@[k])),
            out@ == seq!['['] + join(parts.take(i as int), seq![',']),
        decreases groups.len() - i,
    {
        let item = json_group(&groups[i]);
        append_item(&mut out, &item, i);
        proof {
            lemma_join_push(parts.take(i as int), parts[i as int], seq![',']);
            assert(parts.take(i + 1) =~= parts.take(i as int).push(parts[i as int]));
        }
        i += 1;
    }
    out.push(']');
    assert(parts.take(groups.len() as int) =~= parts);
    assert(out@ =~= groups_json(groups@));
    out
}

fn json_head(scan: &CustomerAdvanceScan) -> (out: Vec<char>)
    ensures
        out@ == canonical_head(*scan),
{
    let mut out: Vec<char> = Vec::new();
    append_pair(&mut out, "schemaVersion", &json_str(scan.schema_version), true);
    append_pair(&mut out, "elevationState", &json_str(scan.elevation_state), false);
    append_pair(&mut out, "elevationLabel", &json_str(scan.elevation_label), false);
    append_pair(&mut out, "benchmarksConsented", &json_bool(scan.benchmarks_consented), false);
    append_pair(&mut out, "writeBenchmarkConsented", &json_bool(scan.write_benchmark_consented), false);
    append_pair(&mut out, "bytesWritten", &json_u64(scan.bytes_written), false);
    append_pair(
        &mut out,
        "destructiveOperationsEnabled",
        &json_bool(scan.destructive_operations_enabled),
        false,
    );
    append_pair(&mut out, "contentInspected", &json_bool(scan.content_inspected), false);
    append_pair(&mut out, "boundaryNote", &json_str(scan.boundary_note.as_str()), false);
    append_pair(&mut out, "temporaryFilesNote", &json_str(scan.temporary_files_note.as_str()), false);
    reveal(canonical_head);
    assert(out@ =~= canonical_head(*scan));
    out
}

fn json_grade(scan: &CustomerAdvanceScan) -> (out: Vec<char>)
    ensures
        out@ == canonical_grade(*scan),
{
    let mut out: Vec<char> = Vec::new();
    append_pair(&mut out, "coveragePercent", &json_u64(scan.coverage_percent as u64), false);
    append_pair(&mut out, "indexPercent", &json_opt_u32(scan.index_percent), false);
    append_pair(&mut out, "provisional", &json_bool(scan.provisional), false);
    append_pair(&mut out, "gradeLabel", &json_str(scan.grade_label), false);
    append_pair(&mut out, "gradeCondition", &json_str(scan.grade_condition), false);
    append_pair(&mut out, "gradeObservation", &json_opt_str(scan.grade_observation), false);
    append_pair(&mut out, "gradeWithheld", &json_bool(scan.grade_withheld), false);
    append_pair(&mut out, "gradeWithheldReason", &json_opt_owned(&scan.grade_withheld_reason), false);
    append_pair(&mut out, "gradingEngine", &json_str(scan.grading_engine), false);
    append_pair(&mut out, "gradingRubric", &json_str(scan.grading_rubric), false);
    append_pair(&mut out, "issuanceNotice", &json_str(scan.issuance_notice), false);
    reveal(canonical_grade);
    assert(out@ =~= canonical_grade(*scan));
    out
}

fn json_tables(scan: &CustomerAdvanceScan) -> (out: Vec<char>)
    ensures
        out@ == canonical_tables(*scan),
{
    let mut out: Vec<char> = Vec::new();
    append_pair(&mut out, "coverageRows", &json_named_values(&scan.coverage_rows), false);
    append_pair(&mut out, "coverageDomains", &json_domains(&scan.coverage_domains), false);
    append_pair(&mut out, "telemetryGroups", &json_groups(&scan.telemetry_groups), false);
    append_pair(&mut out, "notAssessable", &json_string_array(&scan.not_assessable), false);
    append_pair(&mut out, "methodRows", &json_named_values(&scan.method_rows), false);
    append_pair(&mut out, "rubricRows", &json_named_values(&scan.rubric_rows), false);
    reveal(canonical_tables);
    assert(out@ =~= canonical_tables(*scan));
    out
}

/// Compact JSON of the documentary Report D fields. The seal itself is
/// omitted so the encoding cannot depend on the signature it is about to
/// produce.
#[must_use]
pub fn canonical_json(scan: &CustomerAdvanceScan) -> (json: String)
    ensures
        json@ == canonical_spec(*scan),
{
    let mut out: Vec<char> = Vec::new();
    out.push('{');
    append_all(&mut out, &json_head(scan));
    append_all(&mut out, &json_grade(scan));
    append_all(&mut out, &json_tables(scan));
    out.push('}');
    reveal(canonical_spec);
    assert(out@ =~= canonical_spec(*scan));
    string_of(&out)
}

// ---------------------------------------------------------------------------
// Hexadecimal text.
// ---------------------------------------------------------------------------

/// Two lower-case hex digits for one byte, as `{:02x}` writes them.
pub open spec fn hex_pair(b: u8) -> Seq<char> {
    seq![hex_digit((b / 16) as nat), hex_digit((b % 16) as nat)]
}

/// Lower-case hex text of a byte string, two digits per byte.
pub open spec fn hex_lower(bytes: Seq<u8>) -> Seq<char>
    decreases bytes.len(),
{
    if bytes.len() == 0 {
        Seq::<char>::empty()
    } else {
        hex_lower(bytes.drop_last()) + hex_pair(bytes.last())
    }
}

/// The value of a hex digit of either case.
pub open spec fn hex_value(c: char) -> nat {
    if '0' <= c && c <= '9' {
        (c as u32 - 48) as nat
    } else if 'a' <= c && c <= 'f' {
        (c as u32 - 87) as nat
    } else {
        (c as u32 - 55) as nat
    }
}

/// What `u8::from_str_radix(pair, 16)` gives for a two-character pair: both
/// hex digits, or a `+` sign before one digit.
pub open spec fn pair_value(a: char, b: char) -> Option<u8> {
    if is_hex_digit(a) && is_hex_digit(b) {
        Some((16 * hex_value(a) + hex_value(b)) as u8)
    } else if a == '+' && is_hex_digit(b) {
        Some(hex_value(b) as u8)
    } else {
        None
    }
}

/// Pairs of characters read as bytes, left to right; none where the length
/// is odd or any pair is not a byte.
pub open spec fn decode_pairs(s: Seq<char>) -> Option<Seq<u8>>
    decreases s.len(),
{
    if s.len() == 0 {
        Some(Seq::<u8>::empty())
    } else if s.len() == 1 {
        None
    } else {
        match decode_pairs(s.take(s.len() - 2)) {
            None => None,
            Some(front) => match pair_value(s[s.len() - 2], s[s.len() - 1]) {
                None => None,
                Some(v) => Some(front.push(v)),
            },
        }
    }
}

pub open spec fn all_ascii(s: Seq<char>) -> bool {
    forall|i: int| 0 <= i < s.len() ==> (#[trigger] s[i] as u32) < 128
}

/// The bytes written in hex text. Text with a character outside ASCII is
/// never hex.
pub open spec fn decode_hex_spec(s: Seq<char>) -> Option<Seq<u8>> {
    if all_ascii(s) {
        decode_pairs(s)
    } else {
        None
    }
}

proof fn lemma_hex_digit(d: nat)
    requires
        d < 16,
    ensures
        is_hex_digit(hex_digit(d)),
        hex_value(hex_digit(d)) == d,
        (hex_digit(d) as u32) < 128,
{
}

/// Hex text decodes back to the bytes it was written from.
pub proof fn lemma_hex_round_trip(bytes: Seq<u8>)
    ensures
        hex_lower(bytes).len() == 2 * bytes.len(),
        all_ascii(hex_lower(bytes)),
        decode_hex_spec(hex_lower(bytes)) == Some(bytes),
    decreases bytes.len(),
{
    if bytes.len() > 0 {
        let front = bytes.drop_last();
        let x = bytes.last();
        lemma_hex_round_trip(front);
        lemma_hex_digit((x / 16) as nat);
        lemma_hex_digit((x % 16) as nat);
        let h = hex_lower(bytes);
        assert(h.take(h.len() - 2) =~= hex_lower(front));
        assert(pair_value(h[h.len() - 2], h[h.len() - 1]) == Some(x));
        assert(front.push(x) =~= bytes);
        assert forall|i: int| 0 <= i < h.len() implies (#[trigger] h[i] as u32) < 128 by {
            if i < h.len() - 2 {
                assert(h[i] == hex_lower(front)[i]);
            }
        }
    }
}

proof fn lemma_decode_none_extends(s: Seq<char>, j: int, k: int)
    requires
        0 <= j <= k <= s.len(),
        (k - j) % 2 == 0,
        decode_pairs(s.take(j)) is None,
    ensures
        decode_pairs(s.take(k)) is None,
    decreases k - j,
{
    if k > j {
        lemma_decode_none_extends(s, j, k - 2);
        assert(s.take(k).take(k - 2) =~= s.take(k - 2));
    }
}

fn hex_nibble(c: char) -> (r: Option<u32>)
    ensures
        match r {
            Some(v) => is_hex_digit(c) && v == hex_value(c),
            None => !is_hex_digit(c),
        },
{
    if '0' <= c && c <= '9' {
        Some(c as u32 - 48)
    } else if 'a' <= c && c <= 'f' {
        Some(c as u32 - 87)
    } else if 'A' <= c && c <= 'F' {
        Some(c as u32 - 55)
    } else {
        None
    }
}

fn pair_byte(a: char, b: char) -> (r: Option<u8>)
    ensures
        r == pair_value(a, b),
{
    match (hex_nibble(a), hex_nibble(b)) {
        (Some(hi), Some(lo)) => Some((16 * hi + lo) as u8),
        (None, Some(lo)) => {
            if a == '+' {
                Some(lo as u8)
            } else {
                None
            }
        },
        _ => None,
    }
}

/// Lower-case hex text of bytes.
fn to_hex(bytes: &Vec<u8>) -> (out: Vec<char>)
    ensures
        out@ == hex_lower(bytes@),
{
    let mut out: Vec<char> = Vec::new();
    let mut i: usize = 0;
    while i < bytes.len()
        invariant
            i <= bytes.len(),
            out@ == hex_lower(bytes@.take(i as int)),
        decreases bytes.len() - i,
    {
        let b = bytes[i];
        out.push(hex_char((b / 16) as u32));
        out.push(hex_char((b % 16) as u32));
        assert(bytes@.take(i + 1).drop_last() =~= bytes@.take(i as int));
        i += 1;
        assert(out@ =~= hex_lower(bytes@.take(i as int)));
    }
    assert(bytes@.take(bytes.len() as int) =~= bytes@);
    out
}

fn hex_char(d: u32) -> (c: char)
    requires
        d < 16,
    ensures
        c == hex_digit(d as nat),
{
    let v = chars_of("0123456789abcdef");
    proof {
        reveal_strlit("0123456789abcdef");
    }
    let c = v[d as usize];
    assert(c == hex_digit(d as nat));
    c
}

/// The bytes written in hex text, or none where it is not hex.
fn decode_hex(value: &str) -> (r: Option<Vec<u8>>)
    ensures
        match r {
            Some(v) => decode_hex_spec(value@) == Some(v@),
            None => decode_hex_spec(value@) is None,
        },
{
    let v = chars_of(value);
    let mut i: usize = 0;
    while i < v.len()
        invariant
            i <= v.len(),
            v@ == value@,
            forall|k: int| 0 <= k < i ==> (#[trigger] v@[k] as u32) < 128,
        decreases v.len() - i,
    {
        if (v[i] as u32) >= 128 {
            proof {
                assert(!all_ascii(value@)) by {
                    assert((value@[i as int] as u32) >= 128);
                }
            }
            return None;
        }
        i += 1;
    }
    if v.len() % 2 == 1 {
        proof {
            assert(decode_pairs(v@.take(1)) is None);
            lemma_decode_none_extends(v@, 1, v.len() as int);
            assert(v@.take(v.len() as int) =~= v@);
        }
        return None;
    }
    let mut out: Vec<u8> = Vec::new();
    let mut i: usize = 0;
    while i < v.len()
        invariant
            i <= v.len(),
            i % 2 == 0,
            v.len() % 2 == 0,
            v@ == value@,
            all_ascii(v@),
            decode_pairs(v@.take(i as int)) == Some(out@),
        decreases v.len() - i,
    {
        let ghost t = v@.take(i + 2);
        assert(t.take(t.len() - 2) =~= v@.take(i as int));
        match pair_byte(v[i], v[i + 1]) {
            Some(b) => {
                out.push(b);
            },
            None => {
                proof {
                    lemma_decode_none_extends(v@, i + 2, v.len() as int);
                    assert(v@.take(v.len() as int) =~= v@);
                }
                return None;
            },
        }
        i += 2;
    }
    assert(v@.take(v.len() as int) =~= v@);
    Some(out)
}

/// Lower-case hex of the SHA-256 digest of `bytes`.
pub fn sha256_hex(bytes: &Vec<u8>) -> (h: String)
    ensures
        h@ == hex_lower(sha256_digest(bytes@)),
{
    let digest = sha256(bytes.as_slice());
    string_of(&to_hex(&digest))
}

fn str_eq(a: &str, b: &str) -> (r: bool)
    ensures
        r == (a@ == b@),
{
    seq_eq(&chars_of(a), &chars_of(b))
}

// ---------------------------------------------------------------------------
// The seal.
// ---------------------------------------------------------------------------

/// The QR drawing printed for a payload.
pub open spec fn qr_svg_text(payload: Seq<char>) -> Seq<char> {
    match qr_svg_render(encode_utf8(payload), QR_MIN_PIXELS, QR_DARK@, QR_LIGHT@) {
        Some(svg) => svg,
        None => QR_UNAVAILABLE_SVG@,
    }
}

/// What is wrong with a seal, checked in order; none when it verifies.
pub open spec fn seal_problem(seal: IntegritySeal) -> Option<Seq<char>> {
    let message = encode_utf8(seal.canonical_json@);
    let public_key = decode_hex_spec(seal.public_key_hex@);
    let signature = decode_hex_spec(seal.signature_hex@);
    if seal.scheme@ != SEAL_SCHEME@ {
        Some("unknown seal scheme"@)
    } else if hex_lower(sha256_digest(message)) != seal.digest_hex@ {
        Some("digest does not match canonical JSON"@)
    } else if public_key is None {
        Some("public key is not hex"@)
    } else if signature is None {
        Some("signature is not hex"@)
    } else if public_key.unwrap().len() != 32 {
        Some("public key must be 32 bytes"@)
    } else if signature.unwrap().len() != 64 {
        Some("signature must be 64 bytes"@)
    } else if !ed25519_key_decodes(public_key.unwrap()) {
        Some("public key is not a valid Ed25519 key"@)
    } else if !ed25519_accepts(public_key.unwrap(), message, signature.unwrap()) {
        Some("signature does not match this report"@)
    } else {
        None
    }
}

fn qr_svg(payload: &str) -> (svg: String)
    ensures
        svg@ == qr_svg_text(payload@),
{
    match qr_render(payload.as_bytes(), QR_MIN_PIXELS, QR_DARK, QR_LIGHT) {
        Some(s) => s,
        None => QR_UNAVAILABLE_SVG.to_owned(),
    }
}

proof fn lemma_fresh_seal_verifies(s: IntegritySeal, public_key: Seq<u8>, signature: Seq<u8>)
    requires
        s.scheme@ == SEAL_SCHEME@,
        s.digest_hex@ == hex_lower(sha256_digest(encode_utf8(s.canonical_json@))),
        public_key.len() == 32,
        signature.len() == 64,
        ed25519_key_decodes(public_key),
        ed25519_accepts(public_key, encode_utf8(s.canonical_json@), signature),
        s.public_key_hex@ == hex_lower(public_key),
        s.signature_hex@ == hex_lower(signature),
    ensures
        seal_problem(s) is None,
{
    lemma_hex_round_trip(public_key);
    lemma_hex_round_trip(signature);
}

/// What every seal of `scan` holds, whichever key was drawn.
pub open spec fn sealed_from(s: IntegritySeal, scan: CustomerAdvanceScan) -> bool {
    &&& s.scheme@ == SEAL_SCHEME@
    &&& s.notice@ == LOCAL_SEAL_NOTICE@
    &&& s.canonical_json@ == canonical_spec(scan)
    &&& s.digest_hex@ == hex_lower(sha256_digest(encode_utf8(canonical_spec(scan))))
    &&& s.digest_hex@.len() == 64
    &&& s.public_key_hex@.len() == 64
    &&& s.signature_hex@.len() == 128
    &&& s.qr_payload@ == QR_PREFIX@ + s.digest_hex@
    &&& s.qr_svg@ == qr_svg_text(s.qr_payload@)
    &&& exists|secret: Seq<u8>|
        #![trigger ed25519_public_key(secret)]
        secret.len() == 32 && s.public_key_hex@ == hex_lower(ed25519_public_key(secret))
            && s.signature_hex@ == hex_lower(
            ed25519_signature(secret, encode_utf8(canonical_spec(scan))),
        )
    &&& seal_problem(s) is None
}

/// Hash, sign with `secret` and QR-encode one Report D payload.
pub fn seal_with_secret(scan: &CustomerAdvanceScan, secret: &[u8]) -> (s: IntegritySeal)
    requires
        secret@.len() == 32,
    ensures
        sealed_from(s, *scan),
        s.public_key_hex@ == hex_lower(ed25519_public_key(secret@)),
        s.signature_hex@ == hex_lower(ed25519_signature(secret@, encode_utf8(canonical_spec(*scan)))),
{
    let canonical = canonical_json(scan);
    let message = canonical.as_str().as_bytes();
    let digest = sha256(message);
    let digest_hex = string_of(&to_hex(&digest));
    let signature = ed25519_sign(secret, message);
    let public_key = ed25519_public(secret);
    let public_key_hex = string_of(&to_hex(&public_key));
    let signature_hex = string_of(&to_hex(&signature));
    let mut payload: Vec<char> = Vec::new();
    append_str(&mut payload, QR_PREFIX);
    append_str(&mut payload, digest_hex.as_str());
    let qr_payload = string_of(&payload);
    let qr_svg = qr_svg(qr_payload.as_str());
    let s = IntegritySeal {
        scheme: SEAL_SCHEME,
        digest_hex,
        public_key_hex,
        signature_hex,
        qr_svg,
        qr_payload,
        canonical_json: canonical,
        notice: LOCAL_SEAL_NOTICE,
    };
    proof {
        lemma_fresh_seal_verifies(s, public_key@, signature@);
        lemma_hex_round_trip(digest@);
        lemma_hex_round_trip(public_key@);
        lemma_hex_round_trip(signature@);
        assert(s.public_key_hex@ == hex_lower(ed25519_public_key(secret@)));
    }
    s
}

/// Draw a fresh signing key and seal one Report D payload with it. Whatever
/// key was drawn, the seal verifies; where no key could be drawn the answer
/// says so.
#[must_use]
pub fn seal(scan: &CustomerAdvanceScan) -> (r: Result<IntegritySeal, &'static str>)
    ensures
        match r {
            Ok(s) => sealed_from(s, *scan),
            Err(m) => m@ == NO_RANDOMNESS@,
        },
{
    match generate_secret() {
        Some(secret) => Ok(seal_with_secret(scan, secret.as_slice())),
        None => Err(NO_RANDOMNESS),
    }
}

/// Re-check digest and Ed25519 over the stored canonical JSON, naming the
/// first check that fails.
pub fn verify_detail(seal: &IntegritySeal) -> (r: Result<(), &'static str>)
    ensures
        match r {
            Ok(()) => seal_problem(*seal) is None,
            Err(m) => seal_problem(*seal) == Some(m@),
        },
{
    if !str_eq(seal.scheme, SEAL_SCHEME) {
        return Err("unknown seal scheme");
    }
    let message = seal.canonical_json.as_str().as_bytes();
    let digest = sha256(message);
    if !seq_eq(&to_hex(&digest), &chars_of(seal.digest_hex.as_str())) {
        return Err("digest does not match canonical JSON");
    }
    let public_key = match decode_hex(seal.public_key_hex.as_str()) {
        Some(k) => k,
        None => {
            return Err("public key is not hex");
        },
    };
    let signature = match decode_hex(seal.signature_hex.as_str()) {
        Some(k) => k,
        None => {
            return Err("signature is not hex");
        },
    };
    if public_key.len() != 32 {
        return Err("public key must be 32 bytes");
    }
    if signature.len() != 64 {
        return Err("signature must be 64 bytes");
    }
    if !ed25519_key_valid(public_key.as_slice()) {
        return Err("public key is not a valid Ed25519 key");
    }
    if !ed25519_verify(public_key.as_slice(), message, signature.as_slice()) {
        return Err("signature does not match this report");
    }
    Ok(())
}

/// Whether the seal verifies.
#[must_use]
pub fn verify(seal: &IntegritySeal) -> (ok: bool)
    ensures
        ok == (seal_problem(*seal) is None),
{
    verify_detail(seal).is_ok()
}

} // verus!
