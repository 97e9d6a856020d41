//! Identifiers: chart, trash and backup ids are UUIDs, and the app's own
//! temporary items in the game folder are recognised by their names.

use vstd::prelude::*;
use crate::text;

verus! {

pub open spec fn is_hex_digit(c: char) -> bool {
    ('0' <= c && c <= '9') || ('a' <= c && c <= 'f') || ('A' <= c && c <= 'F')
}

/// The hyphenated form: 8-4-4-4-12 hexadecimal digits.
pub open spec fn is_hyphenated_uuid(s: Seq<char>) -> bool {
    &&& s.len() == 36
    &&& forall|i: int|
        0 <= i < 36 ==> if i == 8 || i == 13 || i == 18 || i == 23 {
            #[trigger] s[i] == '-'
        } else {
            is_hex_digit(s[i])
        }
}

/// The texts that `uuid::Uuid::parse_str` accepts: 32 hexadecimal digits,
/// the hyphenated form, the hyphenated form in braces, or the hyphenated
/// form after `urn:uuid:` (prefix in any ASCII case).
pub open spec fn is_uuid_text(s: Seq<char>) -> bool {
    ||| is_simple_uuid(s)
    ||| is_hyphenated_uuid(s)
    ||| s.len() == 38 && s[0] == '{' && s[37] == '}' && is_hyphenated_uuid(s.subrange(1, 37))
    ||| s.len() == 45 && text::eq_ignore_ascii_case(s.take(9), "urn:uuid:"@) && is_hyphenated_uuid(
        s.skip(9),
    )
}

/// `uuid::Uuid::parse_str(s).is_ok()`.  The crate's parser takes exactly
/// the four textual forms above (it checks the byte length, the hyphen
/// places, the braces or URN prefix, and that every other byte is a
/// hexadecimal digit), so the result is stated in full.
#[verifier::external_body]
fn uuid_parses(s: &str) -> (r: bool)
    ensures
        r == is_uuid_text(s@),
{
    uuid::Uuid::parse_str(s).is_ok()
}

pub open spec fn invalid_chart_id_message() -> Seq<char> {
    "invalid chart id"@
}

/// Accepts chart, pack, trash and backup ids only when they are UUIDs.
pub fn validate_chart_id(chart_id: &str) -> (r: Result<(), String>)
    ensures
        r is Ok <==> is_uuid_text(chart_id@),
        r matches Err(e) ==> e@ == invalid_chart_id_message(),
{
    if uuid_parses(chart_id) {
        Ok(())
    } else {
        Err(text::string_from(&text::chars_of("invalid chart id")))
    }
}

/// 32 hexadecimal digits.
pub open spec fn is_simple_uuid(s: Seq<char>) -> bool {
    s.len() == 32 && forall|i: int| 0 <= i < 32 ==> is_hex_digit(#[trigger] s[i])
}

/// A fresh random UUID in hyphenated form (`uuid::Uuid::new_v4().to_string()`).
/// The value is random; only its form is stated: `Display` for `Uuid`
/// writes the lowercase hyphenated encoding.
#[verifier::external_body]
pub(crate) fn new_hyphenated_id() -> (r: String)
    ensures
        is_hyphenated_uuid(r@),
{
    uuid::Uuid::new_v4().to_string()
}

/// A fresh random UUID as 32 hexadecimal digits
/// (`uuid::Uuid::new_v4().simple().to_string()`).  The value is random;
/// only its form is stated: the simple encoding is 32 lowercase hex digits.
#[verifier::external_body]
pub(crate) fn new_simple_id() -> (r: String)
    ensures
        is_simple_uuid(r@),
{
    uuid::Uuid::new_v4().simple().to_string()
}

/// Whether `s` begins with `p`.
pub open spec fn has_prefix(s: Seq<char>, p: Seq<char>) -> bool {
    p.len() <= s.len() && s.take(p.len() as int) == p
}

/// Whether `s` ends with `p`.
pub open spec fn has_suffix(s: Seq<char>, p: Seq<char>) -> bool {
    p.len() <= s.len() && s.skip(s.len() - p.len()) == p
}

/// The operation id inside `.unchartable-<id>`, `.unchartable-<id>.zip` or
/// `.unchartable-<id>.archive`.
pub open spec fn operation_id_of(name: Seq<char>) -> Seq<char> {
    let rest = name.skip(".unchartable-"@.len() as int);
    if has_suffix(rest, ".zip"@) {
        rest.take(rest.len() - 4)
    } else if has_suffix(rest, ".archive"@) {
        rest.take(rest.len() - 8)
    } else {
        rest
    }
}

/// Names of temporary items the app leaves in the game folder: import
/// workspaces, write probes, and downloads or extractions named by a UUID.
pub open spec fn is_repairable_name(name: Seq<char>) -> bool {
    ||| has_prefix(name, ".unchartable-import-"@)
    ||| has_prefix(name, ".unchartable-write-test-"@)
    ||| has_prefix(name, ".unchartable-"@) && is_uuid_text(operation_id_of(name))
}

fn starts_with_chars(s: &Vec<char>, p: &str) -> (r: bool)
    ensures
        r == has_prefix(s@, p@),
{
    let pv = text::chars_of(p);
    if pv.len() > s.len() {
        return false;
    }
    let mut i: usize = 0;
    while i < pv.len()
        invariant
            pv@ == p@,
            pv@.len() <= s@.len(),
            i <= pv@.len(),
            forall|k: int| 0 <= k < i ==> s@[k] == pv@[k],
        decreases pv@.len() - i,
    {
        if s[i] != pv[i] {
            assert(s@.take(pv@.len() as int)[i as int] != pv@[i as int]);
            return false;
        }
        i = i + 1;
    }
    assert(s@.take(pv@.len() as int) =~= pv@);
    true
}

fn ends_with_chars(s: &Vec<char>, p: &str) -> (r: bool)
    ensures
        r == has_suffix(s@, p@),
{
    let pv = text::chars_of(p);
    if pv.len() > s.len() {
        return false;
    }
    let n = s.len();
    let off = n - pv.len();
    let mut i: usize = 0;
    while i < pv.len()
        invariant
            pv@ == p@,
            off + pv@.len() == s@.len(),
            s@.len() == s.len(),
            i <= pv@.len(),
            forall|k: int| 0 <= k < i ==> s@[off + k] == pv@[k],
        decreases pv@.len() - i,
    {
        if s[off + i] != pv[i] {
            assert(s@.skip(off as int)[i as int] != pv@[i as int]);
            return false;
        }
        i = i + 1;
    }
    assert(s@.skip(off as int) =~= pv@);
    true
}

/// Whether a folder entry is a temporary item of the app, which the library
/// repair may delete.
pub fn is_repairable_temporary_item(name: &str) -> (r: bool)
    ensures
        r == is_repairable_name(name@),
        // Repair removes only the app's own `.unchartable-` items.
        r ==> has_prefix(name@, ".unchartable-"@),
        has_prefix(name@, ".unchartable-import-"@) ==> r,
        has_prefix(name@, ".unchartable-write-test-"@) ==> r,
{
    proof {
        lemma_repair_touches_only_app_items(name@);
    }
    let v = text::chars_of(name);
    if starts_with_chars(&v, ".unchartable-import-") || starts_with_chars(
        &v,
        ".unchartable-write-test-",
    ) {
        return true;
    }
    if !starts_with_chars(&v, ".unchartable-") {
        return false;
    }
    proof {
        reveal_strlit(".unchartable-");
        reveal_strlit(".zip");
        reveal_strlit(".archive");
    }
    let rest = text::subrange_chars(&v, 13, v.len());
    assert(rest@ == v@.skip(13));
    let id = if ends_with_chars(&rest, ".zip") {
        text::subrange_chars(&rest, 0, rest.len() - 4)
    } else if ends_with_chars(&rest, ".archive") {
        text::subrange_chars(&rest, 0, rest.len() - 8)
    } else {
        rest
    };
    assert(id@ == operation_id_of(v@));
    uuid_parses(text::string_from(&id).as_str())
}

fn concat3(a: &str, b: &str, c: &str) -> (r: String)
    ensures
        r@ == a@ + b@ + c@,
{
    let mut v = text::chars_of(a);
    let bv = text::chars_of(b);
    let cv = text::chars_of(c);
    let ghost base = v@;
    let mut i: usize = 0;
    while i < bv.len()
        invariant
            i <= bv@.len(),
            v@ == base + bv@.take(i as int),
        decreases bv@.len() - i,
    {
        v.push(bv[i]);
        i = i + 1;
        assert(v@ == base + bv@.take(i as int));
    }
    assert(bv@.take(bv@.len() as int) == bv@);
    let ghost base2 = v@;
    let mut k: usize = 0;
    while k < cv.len()
        invariant
            k <= cv@.len(),
            v@ == base2 + cv@.take(k as int),
        decreases cv@.len() - k,
    {
        v.push(cv[k]);
        k = k + 1;
        assert(v@ == base2 + cv@.take(k as int));
    }
    assert(cv@.take(cv@.len() as int) == cv@);
    text::string_from(&v)
}

/// Names of the temporary download and extraction folder of one install,
/// `.unchartable-<id>.archive` and `.unchartable-<id>`, with a fresh id.
pub fn download_workspace_names() -> (r: (String, String))
    ensures
        exists|id: Seq<char>|
            is_hyphenated_uuid(id) && r.0@ == ".unchartable-"@ + id + ".archive"@ && r.1@
                == ".unchartable-"@ + id,
{
    let id = new_hyphenated_id();
    let archive = concat3(".unchartable-", id.as_str(), ".archive");
    let staging = concat3(".unchartable-", id.as_str(), "");
    proof {
        reveal_strlit("");
        assert(staging@ == ".unchartable-"@ + id@);
    }
    (archive, staging)
}

/// The name of a fresh import workspace, `.unchartable-import-<id>`.
pub fn import_workspace_name() -> (r: String)
    ensures
        exists|id: Seq<char>| is_simple_uuid(id) && r@ == ".unchartable-import-"@ + id,
{
    let id = new_simple_id();
    let r = concat3(".unchartable-import-", id.as_str(), "");
    proof {
        reveal_strlit("");
        assert(r@ == ".unchartable-import-"@ + id@);
    }
    r
}

/// The name of a fresh write probe, `.unchartable-write-test-<id>`.
pub fn write_probe_name() -> (r: String)
    ensures
        exists|id: Seq<char>| is_hyphenated_uuid(id) && r@ == ".unchartable-write-test-"@ + id,
{
    let id = new_hyphenated_id();
    let r = concat3(".unchartable-write-test-", id.as_str(), "");
    proof {
        reveal_strlit("");
        assert(r@ == ".unchartable-write-test-"@ + id@);
    }
    r
}

/// Every temporary item the app names in the game folder (download,
/// extraction, import workspace, write probe) is one the repair recognises
/// and may remove.
pub proof fn lemma_temporary_names_are_repairable(id: Seq<char>, simple: Seq<char>)
    requires
        is_hyphenated_uuid(id),
        is_simple_uuid(simple),
    ensures
        is_repairable_name(".unchartable-"@ + id + ".archive"@),
        is_repairable_name(".unchartable-"@ + id),
        is_repairable_name(".unchartable-import-"@ + simple),
        is_repairable_name(".unchartable-write-test-"@ + id),
{
    reveal_strlit(".unchartable-");
    reveal_strlit(".archive");
    reveal_strlit(".zip");
    reveal_strlit(".unchartable-import-");
    reveal_strlit(".unchartable-write-test-");
    let p = ".unchartable-"@;
    let a = p + id + ".archive"@;
    assert(a.skip(13) == id + ".archive"@);
    assert((id + ".archive"@).skip(36) == ".archive"@);
    assert((id + ".archive"@).take(36) == id);
    assert(!has_suffix(id + ".archive"@, ".zip"@)) by {
        assert((id + ".archive"@).skip(40)[0] == 'h');
    }
    assert(has_prefix(a, p)) by {
        assert(a.take(13) == p);
    }
    let b = p + id;
    assert(b.skip(13) == id);
    assert(has_prefix(b, p)) by {
        assert(b.take(13) == p);
    }
    assert(!has_suffix(id, ".zip"@)) by {
        assert(id.skip(32)[0] == id[32]);
    }
    assert(!has_suffix(id, ".archive"@)) by {
        assert(id.skip(28)[0] == id[28]);
        assert(id.skip(28)[1] == id[29]);
    }
    let c = ".unchartable-import-"@ + simple;
    assert(c.take(20) == ".unchartable-import-"@);
    let d = ".unchartable-write-test-"@ + id;
    assert(d.take(24) == ".unchartable-write-test-"@);
}

/// Repair recognises only the app's own items: every repairable name starts
/// with `.unchartable-`, and workspaces and write probes always are.
pub proof fn lemma_repair_touches_only_app_items(name: Seq<char>)
    ensures
        is_repairable_name(name) ==> has_prefix(name, ".unchartable-"@),
        has_prefix(name, ".unchartable-import-"@) ==> is_repairable_name(name),
        has_prefix(name, ".unchartable-write-test-"@) ==> is_repairable_name(name),
{
    reveal_strlit(".unchartable-");
    reveal_strlit(".unchartable-import-");
    reveal_strlit(".unchartable-write-test-");
    if has_prefix(name, ".unchartable-import-"@) {
        assert(name.take(13) == name.take(20).take(13));
        assert(name.take(13) =~= ".unchartable-"@);
    }
    if has_prefix(name, ".unchartable-write-test-"@) {
        assert(name.take(13) == name.take(24).take(13));
        assert(name.take(13) =~= ".unchartable-"@);
    }
}

} // verus!
