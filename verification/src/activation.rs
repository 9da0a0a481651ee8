//! Offline activation codes and the activation record.
//!
//! A code carries ten bytes: a version byte (1), four random bytes, and the
//! first five bytes of an HMAC-SHA256 of those five under the build secret.
//! The bytes are written in unpadded Base32 (sixteen symbols) and shown in
//! groups of four joined by `-`.

use vstd::prelude::*;
use vstd::utf8::encode_utf8;
use crate::config::{ActivationConfig, ConfigManager};
use crate::crypto;
use crate::clock;
use crate::text;

verus! {

broadcast use vstd::string::group_string_axioms;

/// The version byte of the codes this library issues and accepts.
pub const CODE_VERSION: u8 = 1;

/// Whether activation is active and whether the code generator is available.
#[derive(Debug)]
pub struct ActivationStatus {
    pub activated: bool,
    pub admin_enabled: bool,
}

/// The answer to a successful activation.
#[derive(Debug)]
pub struct ActivationResult {
    pub activated: bool,
    pub message: String,
}

/// The refusal given to an installation that is not activated.
pub open spec fn spec_not_activated_message() -> Seq<char> {
    "软件未激活，无法使用此功能"@
}

/// Succeeds exactly when the installation is activated.
pub fn ensure_activated(config_manager: &ConfigManager) -> (r: Result<(), String>)
    ensures
        r is Ok <==> config_manager.config().activation.activated,
        r matches Err(e) ==> e@ == spec_not_activated_message(),
{
    let config = config_manager.get();
    match config {
        Ok(c) => {
            if c.activation.activated {
                Ok(())
            } else {
                Err("软件未激活，无法使用此功能".to_string())
            }
        },
        Err(e) => Err(e),
    }
}

/// The code generator is a development-build feature; this library is the
/// release build and offers none.
pub fn is_activation_admin_enabled() -> (r: bool)
    ensures
        !r,
{
    false
}

/// The 32-byte build secret from its 64 hexadecimal digits, or `None` when
/// the digits do not decode to exactly 32 bytes.
pub fn activation_secret_bytes(secret_hex: &str) -> (r: Option<Vec<u8>>)
    ensures
        match r {
            Some(v) => crypto::spec_hex_decode(secret_hex@) == Some(v@) && v@.len() == 32,
            None => !(crypto::spec_hex_decode(secret_hex@) matches Some(b) && b.len() == 32),
        },
{
    match crypto::hex_decode(secret_hex) {
        Some(bytes) => {
            if bytes.len() == 32 {
                Some(bytes)
            } else {
                None
            }
        },
        None => None,
    }
}

/// A code as typed, reduced to its symbols: dashes removed, surrounding
/// whitespace trimmed, upper-cased.
pub open spec fn spec_normalize_code(code: Seq<char>) -> Seq<char> {
    text::spec_to_uppercase(text::spec_trim(text::spec_without(code, '-')))
}

/// A code typed as printable ASCII, dashes and surrounding white space
/// aside: its dash-free form, trimmed, is not empty and holds only ASCII
/// graphic characters.
pub open spec fn spec_plain_code(code: Seq<char>) -> bool {
    let t = text::spec_trim(text::spec_without(code, '-'));
    &&& t.len() > 0
    &&& forall|i: int| 0 <= i < t.len() ==> text::spec_ascii_graphic(#[trigger] t[i])
}

/// The symbols of a plain code: its dash-free form, trimmed, with ASCII
/// letters upper-cased.
pub open spec fn spec_code_symbols(code: Seq<char>) -> Seq<char> {
    text::spec_trim(text::spec_without(code, '-')).map_values(|c: char| text::spec_ascii_upper(c))
}

/// Removes dashes, trims and upper-cases a code. A plain code normalises to
/// its symbols.
pub fn normalize_code(code: &str) -> (r: String)
    ensures
        r@ == spec_normalize_code(code@),
        spec_plain_code(code@) ==> r@ == spec_code_symbols(code@),
        text::spec_without(code@, '-').len() > 0 && text::spec_upper_alnum(text::spec_without(code@, '-'))
            ==> r@ == text::spec_without(code@, '-'),
{
    let without = text::remove_char(code, '-');
    let trimmed = text::trim(without.as_str());
    let upper = text::to_uppercase(trimmed);
    proof {
        let w = text::spec_without(code@, '-');
        if spec_plain_code(code@) {
            let t = text::spec_trim(w);
            assert(trimmed@ == t);
            assert(text::spec_all_ascii(t)) by {
                assert forall|i: int| 0 <= i < t.len() implies (#[trigger] t[i] as int) < 128 by {
                    assert(text::spec_ascii_graphic(t[i]));
                }
            }
            assert(upper@ == t.map_values(|c: char| text::spec_ascii_upper(c)));
        }
        if w.len() > 0 && text::spec_upper_alnum(w) {
            assert(text::spec_ascii_graphic(w[0]));
            assert(text::spec_ascii_graphic(w[w.len() - 1]));
            assert(trimmed@ == w);
            assert(text::spec_all_ascii(w));
            assert(upper@ =~= w);
        }
    }
    upper
}

/// The code display: groups of four symbols joined by `-`, built symbol by
/// symbol (a `-` before every fourth symbol after the first).
pub open spec fn spec_format_prefix(s: Seq<char>, i: nat) -> Seq<char>
    decreases i,
{
    if i == 0 {
        seq![]
    } else {
        let j = (i - 1) as int;
        spec_format_prefix(s, (i - 1) as nat) + (if j > 0 && j % 4 == 0 { seq!['-'] } else { seq![] }) + seq![s[j]]
    }
}

/// `raw` in groups of four joined by `-`.
pub open spec fn spec_format_code(raw: Seq<char>) -> Seq<char> {
    spec_format_prefix(raw, raw.len())
}

/// Groups the symbols of `raw` by four, joined with `-`.
pub fn format_code(raw: &str) -> (r: String)
    ensures
        r@ == spec_format_code(raw@),
{
    let n = raw.unicode_len();
    let mut out = String::new();
    let mut i: usize = 0;
    while i < n
        invariant
            n == raw@.len(),
            i <= n,
            out@ == spec_format_prefix(raw@, i as nat),
        decreases n - i,
    {
        if i > 0 && i % 4 == 0 {
            text::push_char(&mut out, '-');
        }
        text::push_char(&mut out, raw.get_char(i));
        proof {
            let j = i as int;
            assert(spec_format_prefix(raw@, (i + 1) as nat) == spec_format_prefix(raw@, i as nat)
                + (if j > 0 && j % 4 == 0 { seq!['-'] } else { seq![] }) + seq![raw@[j]]);
            assert(out@ =~= spec_format_prefix(raw@, (i + 1) as nat));
        }
        i = i + 1;
    }
    out
}

/// Removing the dashes of a formatted code gives back its symbols (when they
/// hold no dash).
pub proof fn lemma_format_then_strip(s: Seq<char>, i: nat)
    requires
        i <= s.len(),
    ensures
        text::spec_without(spec_format_prefix(s, i), '-') == text::spec_without(s.take(i as int), '-'),
    decreases i,
{
    if i > 0 {
        let j = (i - 1) as int;
        lemma_format_then_strip(s, (i - 1) as nat);
        let sep: Seq<char> = if j > 0 && j % 4 == 0 { seq!['-'] } else { seq![] };
        let head = spec_format_prefix(s, (i - 1) as nat);
        text::lemma_without_concat(head + sep, seq![s[j]], '-');
        text::lemma_without_concat(head, sep, '-');
        text::lemma_without_concat(s.take(j), seq![s[j]], '-');
        assert(s.take(j) + seq![s[j]] =~= s.take(i as int));
        assert(text::spec_without(sep, '-') =~= seq![]) by {
            if j > 0 && j % 4 == 0 {
                assert(sep.len() == 1);
                assert(sep.last() == '-');
                assert(sep.drop_last() =~= Seq::<char>::empty());
                assert(text::spec_without(Seq::<char>::empty(), '-') =~= Seq::<char>::empty());
            } else {
                assert(sep.len() == 0);
            }
        }
        assert(text::spec_without(head, '-') + seq![] =~= text::spec_without(head, '-'));
    }
}

/// The five signature bytes for a five-byte payload.
pub open spec fn spec_signature(secret: Seq<u8>, payload: Seq<u8>) -> Seq<u8> {
    crypto::spec_hmac_sha256(secret, payload).take(5)
}

/// The first five bytes of the HMAC-SHA256 of the payload under the secret.
pub fn compute_signature(secret: &[u8], payload: &[u8]) -> (r: Vec<u8>)
    ensures
        r@ == spec_signature(secret@, payload@),
        r@.len() == 5,
{
    let mac = crypto::hmac_sha256(secret, payload);
    take_bytes(&mac, 0, 5)
}

fn take_bytes(v: &Vec<u8>, from: usize, to: usize) -> (r: Vec<u8>)
    requires
        from <= to <= v@.len(),
    ensures
        r@ == v@.subrange(from as int, to as int),
{
    let mut out: Vec<u8> = Vec::new();
    let mut i: usize = from;
    while i < to
        invariant
            from <= i <= to,
            to <= v@.len(),
            out@ == v@.subrange(from as int, i as int),
        decreases to - i,
    {
        out.push(v[i]);
        i = i + 1;
        assert(out@ =~= v@.subrange(from as int, i as int));
    }
    out
}

/// The length refusal.
pub open spec fn spec_length_message() -> Seq<char> {
    "激活码长度应为16位"@
}

/// The format refusal.
pub open spec fn spec_format_message() -> Seq<char> {
    "激活码格式不正确"@
}

/// The version refusal.
pub open spec fn spec_version_message() -> Seq<char> {
    "激活码版本不匹配"@
}

/// The signature refusal.
pub open spec fn spec_invalid_message() -> Seq<char> {
    "激活码无效"@
}

/// Decoding a code: its normalised form must be 16 bytes of Base32 that
/// decode to 10 bytes.
pub open spec fn spec_decode_code(code: Seq<char>) -> Result<Seq<u8>, Seq<char>> {
    let bytes = encode_utf8(spec_normalize_code(code));
    if bytes.len() != 16 {
        Err(spec_length_message())
    } else {
        match crypto::spec_base32_decode(bytes) {
            Some(b) => if b.len() == 10 {
                Ok(b)
            } else {
                Err(spec_format_message())
            },
            None => Err(spec_format_message()),
        }
    }
}

/// `code` displays the sixteen Base32 symbols `raw` of the ten bytes `bytes`.
pub open spec fn spec_encoded_parts(code: Seq<char>, raw: Seq<char>, bytes: Seq<u8>) -> bool {
    &&& code == spec_format_code(raw)
    &&& raw.len() == 16
    &&& forall|i: int| 0 <= i < raw.len() ==> crypto::spec_base32_symbol(#[trigger] raw[i])
    &&& crypto::spec_base32_decode(crypto::spec_ascii_bytes(raw)) == Some(bytes)
    &&& bytes.len() == 10
}

/// `code` is a plain code whose symbols `raw` are sixteen of the Base32
/// alphabet that decode to the ten bytes `bytes`, whatever its letter case
/// and dashes.
pub open spec fn spec_symbol_parts(code: Seq<char>, raw: Seq<char>, bytes: Seq<u8>) -> bool {
    &&& spec_plain_code(code)
    &&& spec_code_symbols(code) == raw
    &&& raw.len() == 16
    &&& forall|i: int| 0 <= i < raw.len() ==> crypto::spec_base32_symbol(#[trigger] raw[i])
    &&& crypto::spec_base32_decode(crypto::spec_ascii_bytes(raw)) == Some(bytes)
    &&& bytes.len() == 10
}

/// Decodes a code into its ten bytes. A code displayed from sixteen Base32
/// symbols decodes to the bytes they stand for, and so does any plain code
/// with those symbols (other letter case, other dashes).
pub fn decode_code(code: &str) -> (r: Result<Vec<u8>, String>)
    ensures
        match r {
            Ok(v) => spec_decode_code(code@) == Ok::<Seq<u8>, Seq<char>>(v@),
            Err(e) => spec_decode_code(code@) == Err::<Seq<u8>, Seq<char>>(e@),
        },
        forall|raw: Seq<char>, bytes: Seq<u8>| #[trigger] spec_encoded_parts(code@, raw, bytes)
            ==> spec_decode_code(code@) == Ok::<Seq<u8>, Seq<char>>(bytes),
        forall|raw: Seq<char>, bytes: Seq<u8>| #[trigger] spec_symbol_parts(code@, raw, bytes)
            ==> spec_decode_code(code@) == Ok::<Seq<u8>, Seq<char>>(bytes),
{
    let normalized = normalize_code(code);
    assert forall|raw: Seq<char>, bytes: Seq<u8>| #[trigger] spec_symbol_parts(code@, raw, bytes)
        implies spec_decode_code(code@) == Ok::<Seq<u8>, Seq<char>>(bytes) by {
        assert(normalized@ == raw);
        assert(vstd::utf8::is_ascii_chars(raw)) by {
            assert forall|i: int| 0 <= i < raw.len() implies (#[trigger] raw[i] as int) < 128 by {
                assert(crypto::spec_base32_symbol(raw[i]));
            }
        }
        vstd::utf8::is_ascii_chars_encode_utf8(raw);
        assert(encode_utf8(raw) =~= crypto::spec_ascii_bytes(raw));
    }
    assert forall|raw: Seq<char>, bytes: Seq<u8>| #[trigger] spec_encoded_parts(code@, raw, bytes)
        implies spec_decode_code(code@) == Ok::<Seq<u8>, Seq<char>>(bytes) by {
        lemma_format_then_strip(raw, raw.len());
        assert(raw.take(raw.len() as int) =~= raw);
        text::lemma_without_absent(raw, '-');
        assert(text::spec_upper_alnum(raw));
        assert(normalized@ == raw);
        assert(vstd::utf8::is_ascii_chars(raw));
        vstd::utf8::is_ascii_chars_encode_utf8(raw);
        assert(encode_utf8(raw) =~= crypto::spec_ascii_bytes(raw));
    }
    let nb = normalized.as_str().as_bytes();
    assert(nb@ == encode_utf8(normalized@));
    if nb.len() != 16 {
        return Err("激活码长度应为16位".to_string());
    }
    let bytes = crypto::base32_decode(nb);
    match bytes {
        Some(b) => {
            if b.len() != 10 {
                Err("激活码格式不正确".to_string())
            } else {
                Ok(b)
            }
        },
        None => Err("激活码格式不正确".to_string()),
    }
}

/// Checking a code: it decodes, carries version 1, and its signature matches.
pub open spec fn spec_verify_code(secret: Seq<u8>, code: Seq<char>) -> Result<(), Seq<char>> {
    match spec_decode_code(code) {
        Err(e) => Err(e),
        Ok(b) => if b[0] != CODE_VERSION {
            Err(spec_version_message())
        } else if spec_signature(secret, b.take(5)) != b.skip(5) {
            Err(spec_invalid_message())
        } else {
            Ok(())
        },
    }
}

/// What an issued code is made of: its symbols `raw`, sixteen of the Base32
/// alphabet that decode to ten bytes of version 1 signed under `secret`.
pub open spec fn spec_issued_parts(secret: Seq<u8>, code: Seq<char>, raw: Seq<char>, bytes: Seq<u8>) -> bool {
    &&& spec_encoded_parts(code, raw, bytes)
    &&& bytes[0] == CODE_VERSION
    &&& bytes.skip(5) == spec_signature(secret, bytes.take(5))
}

/// `code` is a code issued under `secret`.
pub open spec fn spec_issued_code(secret: Seq<u8>, code: Seq<char>) -> bool {
    exists|raw: Seq<char>, bytes: Seq<u8>| #[trigger] spec_issued_parts(secret, code, raw, bytes)
}

/// Checks a code against the build secret. Every code issued under the
/// secret passes.
pub fn verify_code(secret: &[u8], code: &str) -> (r: Result<(), String>)
    ensures
        match r {
            Ok(()) => spec_verify_code(secret@, code@) == Ok::<(), Seq<char>>(()),
            Err(e) => spec_verify_code(secret@, code@) == Err::<(), Seq<char>>(e@),
        },
        spec_issued_code(secret@, code@) ==> r is Ok,
        forall|issued: Seq<char>| #[trigger] spec_issued_code(secret@, issued) && spec_plain_code(code@)
            && spec_code_symbols(code@) == text::spec_without(issued, '-') ==> r is Ok,
{
    proof {
        if spec_issued_code(secret@, code@) {
            let (raw, bytes) = choose|raw: Seq<char>, bytes: Seq<u8>| spec_issued_parts(secret@, code@, raw, bytes);
            assert(spec_encoded_parts(code@, raw, bytes));
        }
    }
    let decoded = decode_code(code);
    proof {
        assert forall|issued: Seq<char>| #[trigger] spec_issued_code(secret@, issued) && spec_plain_code(code@)
            && spec_code_symbols(code@) == text::spec_without(issued, '-')
            implies spec_verify_code(secret@, code@) == Ok::<(), Seq<char>>(()) by {
            let (raw, bytes) = choose|raw: Seq<char>, bytes: Seq<u8>| spec_issued_parts(secret@, issued, raw, bytes);
            lemma_format_then_strip(raw, raw.len());
            assert(raw.take(raw.len() as int) =~= raw);
            assert forall|i: int| 0 <= i < raw.len() implies raw[i] != '-' by {
                assert(crypto::spec_base32_symbol(raw[i]));
            }
            text::lemma_without_absent(raw, '-');
            assert(text::spec_without(issued, '-') == raw);
            assert(spec_symbol_parts(code@, raw, bytes));
            assert(spec_decode_code(code@) == Ok::<Seq<u8>, Seq<char>>(bytes));
        }
    }
    let bytes = match decoded {
        Ok(b) => b,
        Err(e) => return Err(e),
    };
    let payload = take_bytes(&bytes, 0, 5);
    let signature = take_bytes(&bytes, 5, 10);
    assert(payload@ =~= bytes@.take(5));
    assert(signature@ =~= bytes@.skip(5));
    if payload[0] != CODE_VERSION {
        return Err("激活码版本不匹配".to_string());
    }
    let expected = compute_signature(secret, payload.as_slice());
    if !bytes_eq(&expected, &signature) {
        return Err("激活码无效".to_string());
    }
    Ok(())
}

fn bytes_eq(a: &Vec<u8>, b: &Vec<u8>) -> (r: bool)
    ensures
        r == (a@ == b@),
{
    if a.len() != b.len() {
        return false;
    }
    let mut i: usize = 0;
    while i < a.len()
        invariant
            a@.len() == b@.len(),
            i <= a@.len(),
            forall|k: int| 0 <= k < i ==> a@[k] == b@[k],
        decreases a@.len() - i,
    {
        if a[i] != b[i] {
            return false;
        }
        i = i + 1;
    }
    assert(a@ =~= b@);
    true
}

/// The stored fingerprint of a code: lowercase hex SHA-256 of its normalised
/// form.
pub open spec fn spec_hash_code(code: Seq<char>) -> Seq<char> {
    crypto::spec_hex_lower(crypto::spec_sha256(encode_utf8(spec_normalize_code(code))))
}

/// Fingerprints a code for the activation record.
pub fn hash_code(code: &str) -> (r: String)
    ensures
        r@ == spec_hash_code(code@),
{
    let normalized = normalize_code(code);
    let digest = crypto::sha256_digest(normalized.as_str().as_bytes());
    crypto::hex_encode(digest.as_slice())
}

/// The ten bytes of the code issued for four random bytes: version 1, the
/// random bytes, and the signature of those five.
pub open spec fn spec_code_bytes(secret: Seq<u8>, random: Seq<u8>) -> Seq<u8> {
    let payload = seq![CODE_VERSION] + random;
    payload + spec_signature(secret, payload)
}

/// The code issued for four random bytes.
pub open spec fn spec_activation_code(secret: Seq<u8>, random: Seq<u8>) -> Seq<char> {
    spec_format_code(crypto::spec_base32_encode(spec_code_bytes(secret, random)))
}

/// The code issued under `secret` for the four random bytes `random`.
pub fn activation_code_from_random(secret: &[u8], random: &[u8]) -> (r: String)
    requires
        random@.len() == 4,
    ensures
        r@ == spec_activation_code(secret@, random@),
        spec_issued_code(secret@, r@),
{
    let mut payload: Vec<u8> = Vec::new();
    payload.push(CODE_VERSION);
    let mut i: usize = 0;
    while i < random.len()
        invariant
            i <= random@.len(),
            payload@ == seq![CODE_VERSION] + random@.take(i as int),
        decreases random@.len() - i,
    {
        payload.push(random[i]);
        i = i + 1;
        assert(payload@ =~= seq![CODE_VERSION] + random@.take(i as int));
    }
    assert(random@.take(4) =~= random@);
    let signature = compute_signature(secret, payload.as_slice());
    let mut bytes = payload.clone();
    assert(bytes@ == payload@);
    let mut k: usize = 0;
    while k < signature.len()
        invariant
            k <= signature@.len(),
            signature@.len() == 5,
            bytes@ == payload@ + signature@.take(k as int),
        decreases signature@.len() - k,
    {
        bytes.push(signature[k]);
        k = k + 1;
        assert(bytes@ =~= payload@ + signature@.take(k as int));
    }
    assert(signature@.take(5) =~= signature@);
    assert(bytes@ =~= spec_code_bytes(secret@, random@));
    let raw = crypto::base32_encode(bytes.as_slice());
    let code = format_code(raw.as_str());
    proof {
        assert(bytes@.take(5) =~= payload@);
        assert(bytes@.skip(5) =~= signature@);
        assert(spec_issued_parts(secret@, code@, raw@, bytes@));
    }
    code
}

/// Issues a new code under `secret` from four bytes of operating-system
/// randomness. Every issued code passes `verify_code` under the same secret.
pub fn generate_activation_code(secret: &[u8]) -> (r: String)
    ensures
        exists|random: Seq<u8>| random.len() == 4 && r@ == #[trigger] spec_activation_code(secret@, random),
        spec_issued_code(secret@, r@),
{
    let random = crypto::random_bytes_4();
    activation_code_from_random(secret, random.as_slice())
}

/// The number of codes issued per request.
pub const CODES_PER_REQUEST: usize = 5;

/// Issues five codes when `password` is the generator password.
pub fn generate_activation_codes(secret: &[u8], password: &str, generator_password: &str) -> (r: Result<Vec<String>, String>)
    ensures
        r is Err <==> password@ != generator_password@,
        r matches Err(e) ==> e@ == "口令错误"@,
        r matches Ok(codes) ==> codes@.len() == 5
            && forall|i: int| 0 <= i < 5 ==> spec_issued_code(secret@, #[trigger] codes@[i]@),
{
    if !text::str_eq(password, generator_password) {
        return Err("口令错误".to_string());
    }
    let mut codes: Vec<String> = Vec::new();
    let mut i: usize = 0;
    while i < CODES_PER_REQUEST
        invariant
            i <= 5,
            codes@.len() == i,
            forall|j: int| 0 <= j < i ==> spec_issued_code(secret@, #[trigger] codes@[j]@),
        decreases 5 - i,
    {
        let code = generate_activation_code(secret);
        codes.push(code);
        i = i + 1;
    }
    Ok(codes)
}

/// The activation state and whether codes can be generated here.
pub fn get_activation_status(config_manager: &ConfigManager) -> (r: Result<ActivationStatus, String>)
    ensures
        r matches Ok(s) && s.activated == config_manager.config().activation.activated && !s.admin_enabled,
{
    let config = config_manager.get();
    match config {
        Ok(c) => Ok(ActivationStatus { activated: c.activation.activated, admin_enabled: is_activation_admin_enabled() }),
        Err(e) => Err(e),
    }
}

/// Activates this installation with a code: refused when already activated,
/// when the code is blank, or when it does not verify; otherwise the record
/// holds the code's fingerprint and the time of activation.
pub fn activate_with_code(config_manager: &mut ConfigManager, secret: &[u8], code: &str) -> (r: Result<ActivationResult, String>)
    ensures
        old(config_manager).config().activation.activated ==> (r matches Err(e) && e@ == "软件已激活"@),
        !old(config_manager).config().activation.activated && spec_normalize_code(code@).len() == 0
            ==> (r matches Err(e) && e@ == "请输入激活码"@),
        !old(config_manager).config().activation.activated && spec_normalize_code(code@).len() != 0
            ==> match spec_verify_code(secret@, spec_normalize_code(code@)) {
                Err(e) => (r matches Err(m) && m@ == e),
                Ok(()) => (r matches Ok(res) && res.activated && res.message@ == "激活成功"@),
            },
        r is Err ==> *final(config_manager) == *old(config_manager),
        r is Ok ==> {
            &&& final(config_manager).config() == (crate::config::AppConfig {
                activation: final(config_manager).config().activation,
                ..old(config_manager).config()
            })
            &&& final(config_manager).config().activation.activated
            &&& final(config_manager).config().activation.activation_code_hash matches Some(h)
                && h@ == spec_hash_code(spec_normalize_code(code@))
            &&& final(config_manager).config().activation.activated_at is Some
        },
        final(config_manager).config_path() == old(config_manager).config_path(),
{
    let activated = match config_manager.get() {
        Ok(c) => c.activation.activated,
        Err(e) => return Err(e),
    };
    if activated {
        return Err("软件已激活".to_string());
    }
    let normalized = normalize_code(code);
    if normalized.as_str().is_empty() {
        return Err("请输入激活码".to_string());
    }
    match verify_code(secret, normalized.as_str()) {
        Ok(()) => {},
        Err(e) => return Err(e),
    }
    let now = clock::now_rfc3339();
    let hash = hash_code(normalized.as_str());
    config_manager.set_activation(ActivationConfig {
        activated: true,
        activation_code_hash: Some(hash),
        activated_at: Some(now),
    });
    Ok(ActivationResult { activated: true, message: "激活成功".to_string() })
}

proof fn lemma_without_lower(s: Seq<char>)
    ensures
        text::spec_without(s.map_values(|c: char| text::spec_ascii_lower(c)), '-')
            == text::spec_without(s, '-').map_values(|c: char| text::spec_ascii_lower(c)),
    decreases s.len(),
{
    let m = s.map_values(|c: char| text::spec_ascii_lower(c));
    if s.len() > 0 {
        lemma_without_lower(s.drop_last());
        assert(m.drop_last() =~= s.drop_last().map_values(|c: char| text::spec_ascii_lower(c)));
        assert(m.last() == text::spec_ascii_lower(s.last()));
        let w = text::spec_without(s.drop_last(), '-');
        if s.last() != '-' {
            assert(w.push(s.last()).map_values(|c: char| text::spec_ascii_lower(c))
                =~= w.map_values(|c: char| text::spec_ascii_lower(c)).push(text::spec_ascii_lower(s.last())));
        }
    } else {
        assert(m =~= Seq::<char>::empty());
    }
}

/// The symbols of an issued code, with the dashes removed.
proof fn lemma_issued_symbols(secret: Seq<u8>, issued: Seq<char>) -> (raw: Seq<char>)
    requires
        spec_issued_code(secret, issued),
    ensures
        raw == text::spec_without(issued, '-'),
        raw.len() == 16,
        forall|i: int| 0 <= i < raw.len() ==> crypto::spec_base32_symbol(#[trigger] raw[i]),
{
    let (raw, bytes) = choose|raw: Seq<char>, bytes: Seq<u8>| spec_issued_parts(secret, issued, raw, bytes);
    lemma_format_then_strip(raw, raw.len());
    assert(raw.take(raw.len() as int) =~= raw);
    assert forall|i: int| 0 <= i < raw.len() implies raw[i] != '-' by {
        assert(crypto::spec_base32_symbol(raw[i]));
    }
    text::lemma_without_absent(raw, '-');
    raw
}

/// An issued code is accepted as typed, in lower case, or without its
/// dashes: each of these is a plain code whose symbols are the issued
/// code's, which `verify_code` accepts.
pub proof fn law_issued_code_variants(secret: Seq<u8>, issued: Seq<char>)
    requires
        spec_issued_code(secret, issued),
    ensures
        spec_plain_code(issued) && spec_code_symbols(issued) == text::spec_without(issued, '-'),
        ({
            let lower = issued.map_values(|c: char| text::spec_ascii_lower(c));
            spec_plain_code(lower) && spec_code_symbols(lower) == text::spec_without(issued, '-')
        }),
        ({
            let bare = text::spec_without(issued, '-');
            spec_plain_code(bare) && spec_code_symbols(bare) == text::spec_without(issued, '-')
        }),
{
    let raw = lemma_issued_symbols(secret, issued);
    let up = |c: char| text::spec_ascii_upper(c);
    let low = |c: char| text::spec_ascii_lower(c);
    assert(raw.map_values(up) =~= raw) by {
        assert forall|i: int| 0 <= i < raw.len() implies raw.map_values(up)[i] == raw[i] by {
            assert(crypto::spec_base32_symbol(raw[i]));
        }
    }
    assert forall|i: int| 0 <= i < raw.len() implies text::spec_ascii_graphic(#[trigger] raw[i]) by {
        assert(crypto::spec_base32_symbol(raw[i]));
    }
    lemma_without_lower(issued);
    let lr = raw.map_values(low);
    assert forall|i: int| 0 <= i < lr.len() implies text::spec_ascii_graphic(#[trigger] lr[i]) by {
        assert(crypto::spec_base32_symbol(raw[i]));
    }
    assert(lr.map_values(up) =~= raw) by {
        assert forall|i: int| 0 <= i < raw.len() implies lr.map_values(up)[i] == raw[i] by {
            assert(crypto::spec_base32_symbol(raw[i]));
        }
    }
    assert forall|i: int| 0 <= i < raw.len() implies raw[i] != '-' by {
        assert(crypto::spec_base32_symbol(raw[i]));
    }
    text::lemma_without_absent(raw, '-');
}

/// An issued code with white space around it is accepted too: it is a plain
/// code whose symbols are the issued code's.
pub proof fn law_issued_code_padded(secret: Seq<u8>, issued: Seq<char>, before: Seq<char>, after: Seq<char>)
    requires
        spec_issued_code(secret, issued),
        forall|i: int| 0 <= i < before.len() ==> text::spec_is_whitespace(#[trigger] before[i]),
        forall|i: int| 0 <= i < after.len() ==> text::spec_is_whitespace(#[trigger] after[i]),
    ensures
        spec_plain_code(before + issued + after),
        spec_code_symbols(before + issued + after) == text::spec_without(issued, '-'),
{
    let raw = lemma_issued_symbols(secret, issued);
    assert forall|i: int| 0 <= i < before.len() implies before[i] != '-' by {
        assert(text::spec_is_whitespace(before[i]));
    }
    assert forall|i: int| 0 <= i < after.len() implies after[i] != '-' by {
        assert(text::spec_is_whitespace(after[i]));
    }
    text::lemma_without_absent(before, '-');
    text::lemma_without_absent(after, '-');
    text::lemma_without_concat(before, issued, '-');
    text::lemma_without_concat(before + issued, after, '-');
    assert(text::spec_without(before + issued + after, '-') == before + raw + after);
    assert(crypto::spec_base32_symbol(raw[0]));
    assert(crypto::spec_base32_symbol(raw[raw.len() - 1]));
    text::lemma_trim_padded(before, raw, after);
    let up = |c: char| text::spec_ascii_upper(c);
    assert(raw.map_values(up) =~= raw) by {
        assert forall|i: int| 0 <= i < raw.len() implies raw.map_values(up)[i] == raw[i] by {
            assert(crypto::spec_base32_symbol(raw[i]));
        }
    }
    assert forall|i: int| 0 <= i < raw.len() implies text::spec_ascii_graphic(#[trigger] raw[i]) by {
        assert(crypto::spec_base32_symbol(raw[i]));
    }
}

/// A code's signature is the first five bytes of the HMAC-SHA256 of its
/// five payload bytes under the secret.
pub proof fn law_signature_is_hmac_prefix(secret: Seq<u8>, payload: Seq<u8>)
    requires
        crypto::spec_hmac_sha256(secret, payload).len() == 32,
    ensures
        spec_signature(secret, payload).len() == 5,
        forall|i: int| 0 <= i < 5 ==> #[trigger] spec_signature(secret, payload)[i]
            == crypto::spec_hmac_sha256(secret, payload)[i],
{
}

/// A code that shows sixteen Base32 symbols of ten bytes, the first being
/// version 1 and the last five the first five bytes of the HMAC-SHA256 of
/// the first five under the secret, verifies.
pub proof fn law_hmac_signed_code_verifies(secret: Seq<u8>, code: Seq<char>, raw: Seq<char>, bytes: Seq<u8>)
    requires
        spec_encoded_parts(code, raw, bytes),
        bytes[0] == CODE_VERSION,
        forall|i: int| 0 <= i < 5 ==> #[trigger] bytes[5 + i] == crypto::spec_hmac_sha256(secret, bytes.take(5))[i],
        crypto::spec_hmac_sha256(secret, bytes.take(5)).len() == 32,
    ensures
        spec_issued_code(secret, code),
{
    assert(bytes.skip(5) =~= spec_signature(secret, bytes.take(5))) by {
        assert forall|i: int| 0 <= i < 5 implies bytes.skip(5)[i] == spec_signature(secret, bytes.take(5))[i] by {
            assert(bytes[5 + i] == crypto::spec_hmac_sha256(secret, bytes.take(5))[i]);
        }
    }
    assert(spec_issued_parts(secret, code, raw, bytes));
}

} // verus!
