use vstd::prelude::*;

verus! {

/// A character of a tab identifier as it stands in a file name: path
/// separators become underscores.
pub open spec fn file_safe_char(c: char) -> char {
    if c == '/' || c == '\\' {
        '_'
    } else {
        c
    }
}

/// The name of the cache file that holds the content of a tab.
pub open spec fn cache_file_name_of(tab_id: Seq<char>) -> Seq<char> {
    "tab-"@ + tab_id.map_values(|c: char| file_safe_char(c)) + ".json"@
}

/// The name of the cache file for a tab: `tab-<id>.json`, with each `/` and
/// `\` of the identifier replaced by `_`, so that the name stays inside the
/// cache directory.
pub fn cache_file_name(tab_id: &str) -> (r: String)
    ensures
        r@ == cache_file_name_of(tab_id@),
{
    proof {
        reveal_strlit("tab-");
        reveal_strlit(".json");
    }
    let n = tab_id.unicode_len();
    let mut out = String::from_str("tab-");
    let mut i: usize = 0;
    while i < n
        invariant
            i <= n,
            n == tab_id@.len(),
            out@ == "tab-"@ + tab_id@.take(i as int).map_values(|c: char| file_safe_char(c)),
        decreases n - i,
    {
        let ghost before = out@;
        let c = tab_id.get_char(i);
        if c == '/' || c == '\\' {
            proof {
                reveal_strlit("_");
            }
            assert("_"@ =~= seq!['_']);
            out.append("_");
            assert(out@ =~= before.push(file_safe_char(c)));
        } else {
            let one = tab_id.substring_char(i, i + 1);
            assert(one@ =~= seq![c]);
            out.append(one);
            assert(out@ =~= before.push(file_safe_char(c)));
        }
        assert(tab_id@.take(i + 1).map_values(|c: char| file_safe_char(c)) =~= tab_id@.take(
            i as int,
        ).map_values(|c: char| file_safe_char(c)).push(file_safe_char(c)));
        assert(out@ =~= "tab-"@ + tab_id@.take(i + 1).map_values(|c: char| file_safe_char(c)));
        i = i + 1;
    }
    assert(tab_id@.take(i as int) =~= tab_id@);
    out.append(".json");
    out
}

} // verus!
