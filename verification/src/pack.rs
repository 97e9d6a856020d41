//! Exporting installed charts as a local pack (a ZIP of chart folders).

use vstd::prelude::*;
use crate::names;
use crate::paths::{self, ChartPath};
use crate::text;

verus! {

/// The checks made before a pack is written: at least one chart, and a
/// `.zip` output (extension in any ASCII case).
pub fn check_pack_request(chart_count: usize, output: &ChartPath) -> (r: Result<(), String>)
    ensures
        match r {
            Ok(()) => chart_count > 0 && paths::lower_extension(output@) == "zip"@,
            Err(e) => if chart_count == 0 {
                e@ == "select at least one installed chart."@
            } else {
                paths::lower_extension(output@) != "zip"@ && e@
                    == "local packs must be exported as ZIP files."@
            },
        },
{
    if chart_count == 0 {
        return Err(text::owned("select at least one installed chart."));
    }
    let e = paths::lowercase_extension(output);
    if !text::chars_are(&e, "zip") {
        return Err(text::owned("local packs must be exported as ZIP files."));
    }
    Ok(())
}

/// A chart folder may go into a pack only when it sits directly in the game
/// folder (`is_dir` says whether the app found a folder there).
pub fn check_pack_chart(target: &ChartPath, chart: &ChartPath, is_dir: bool) -> (r: Result<(), String>)
    ensures
        r is Ok <==> (paths::parent_of(chart@) == Some(target@) && is_dir),
        r matches Err(e) ==> e@ == "refusing to export a folder outside CustomSongs."@,
{
    if !paths::is_direct_child(target, chart) || !is_dir {
        return Err(text::owned("refusing to export a folder outside CustomSongs."));
    }
    Ok(())
}

/// The folder a chart takes inside the pack: its sanitized folder name, or
/// "Chart" when it has none.
pub fn pack_folder_name(chart: &ChartPath) -> (r: String)
    ensures
        r@ == (match paths::file_name_of(chart@) {
            Some(n) => names::sanitized(n),
            None => "Chart"@,
        }),
{
    match chart.file_name() {
        Some(n) => names::sanitize_folder_name(n.as_str()),
        None => text::owned("Chart"),
    }
}

/// `s` with every backslash turned into a slash.
pub open spec fn forward_slashes(s: Seq<char>) -> Seq<char> {
    s.map_values(|c: char| if c == '\\' { '/' } else { c })
}

/// The name of a file inside the pack: `<prefix>/<relative path>`, with
/// forward slashes; folders end in a slash.
pub fn pack_entry_name(prefix: &str, relative: &str, is_dir: bool) -> (r: String)
    ensures
        r@ == prefix@ + "/"@ + forward_slashes(relative@) + (if is_dir { "/"@ } else { ""@ }),
{
    let mut v = text::chars_of(prefix);
    text::append_str(&mut v, "/");
    let rel = text::chars_of(relative);
    let ghost base = v@;
    let mut i: usize = 0;
    while i < rel.len()
        invariant
            i <= rel@.len(),
            v@ == base + forward_slashes(rel@.take(i as int)),
        decreases rel@.len() - i,
    {
        let c = if rel[i] == '\\' { '/' } else { rel[i] };
        v.push(c);
        i = i + 1;
        assert(v@ =~= base + forward_slashes(rel@.take(i as int)));
    }
    assert(rel@.take(rel@.len() as int) == rel@);
    if is_dir {
        text::append_str(&mut v, "/");
    } else {
        proof {
            reveal_strlit("");
            assert(v@ =~= v@ + ""@);
        }
    }
    text::string_from(&v)
}

} // verus!
