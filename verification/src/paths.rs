use vstd::prelude::*;

verus! {

/// Whether `suffix` ends `s`.
pub open spec fn ends_with(s: Seq<char>, suffix: Seq<char>) -> bool {
    suffix.len() <= s.len() && s.subrange(s.len() - suffix.len(), s.len() as int) == suffix
}

/// Index of the last path separator in `s`, or -1 where there is none.
pub open spec fn last_sep_index(s: Seq<char>) -> int
    decreases s.len(),
{
    if s.len() == 0 {
        -1
    } else if s[s.len() - 1] == '/' {
        s.len() - 1
    } else {
        last_sep_index(s.drop_last())
    }
}

proof fn lemma_last_sep_ignores_clean_suffix(s: Seq<char>, i: int)
    requires
        0 <= i <= s.len(),
        forall|j: int| i <= j < s.len() ==> s[j] != '/',
    ensures
        last_sep_index(s) == last_sep_index(s.subrange(0, i)),
    decreases s.len(),
{
    if s.len() == i {
        assert(s.subrange(0, i) =~= s);
    } else {
        assert(s[s.len() - 1] != '/');
        assert(s.drop_last() =~= s.subrange(0, s.len() - 1));
        assert(forall|j: int| i <= j < s.drop_last().len() ==> s.drop_last()[j] == s[j]);
        lemma_last_sep_ignores_clean_suffix(s.drop_last(), i);
        assert(s.drop_last().subrange(0, i) =~= s.subrange(0, i));
    }
}

/// The directory part of a slash-separated path: everything before the last
/// separator. A path without a separator has no parent.
pub fn parent_dir(path: &str) -> (r: Option<String>)
    ensures
        (r is Some) <==> last_sep_index(path@) >= 0,
        r matches Some(p) ==> p@ == path@.subrange(0, last_sep_index(path@)),
{
    let n = path.unicode_len();
    let mut i: usize = n;
    while i > 0
        invariant
            i <= n,
            n == path@.len(),
            forall|j: int| i <= j < n ==> path@[j] != '/',
        decreases i,
    {
        if path.get_char(i - 1) == '/' {
            proof {
                lemma_last_sep_ignores_clean_suffix(path@, i as int);
                assert(path@.subrange(0, i as int)[i - 1] == path@[i - 1]);
                assert(path@.subrange(0, i as int).drop_last() =~= path@.subrange(
                    0,
                    i as int,
                ).subrange(0, i - 1));
            }
            let p = path.substring_char(0, i - 1).to_owned();
            return Some(p);
        }
        i = i - 1;
    }
    proof {
        lemma_last_sep_ignores_clean_suffix(path@, 0);
        assert(path@.subrange(0, 0) =~= Seq::<char>::empty());
    }
    None
}

/// The application's directory under a host-provided per-user data root.
pub fn app_data_dir_from(base: &str) -> (r: String)
    ensures
        r@ == base@ + "/smart-stock-insider"@,
{
    let mut r = base.to_owned();
    r.append("/smart-stock-insider");
    r
}

/// The logs directory under a resolved application-data directory.
pub fn logs_dir_from(data_dir: &str) -> (r: String)
    ensures
        r@ == data_dir@ + "/logs"@,
{
    let mut r = data_dir.to_owned();
    r.append("/logs");
    r
}

/// Relies on dirs::data_dir: the OS-conventional per-user data directory,
/// or nothing where the host exposes none; the value depends on the host
/// environment, so nothing is claimed of it.
#[verifier::external_body]
fn user_data_dir() -> (r: Option<String>) {
    dirs::data_dir().map(|p| p.to_string_lossy().into_owned())
}

/// The application's data directory: the host's per-user data root with the
/// application's own directory appended; nothing where the host exposes no
/// data root.
pub fn get_app_data_dir() -> (r: Option<String>)
    ensures
        r matches Some(p) ==> ends_with(p@, "/smart-stock-insider"@),
{
    match user_data_dir() {
        None => None,
        Some(base) => {
            let p = app_data_dir_from(base.as_str());
            proof {
                assert(p@.subrange(
                    p@.len() - "/smart-stock-insider"@.len(),
                    p@.len() as int,
                ) =~= "/smart-stock-insider"@);
            }
            Some(p)
        },
    }
}

/// The application's logs directory: always the `logs` directory under the
/// application's data directory; nothing where the host exposes no data root.
pub fn get_app_logs_dir() -> (r: Option<String>)
    ensures
        r matches Some(p) ==> ends_with(p@, "/smart-stock-insider/logs"@),
{
    match get_app_data_dir() {
        None => None,
        Some(data) => {
            let p = logs_dir_from(data.as_str());
            proof {
                reveal_strlit("/smart-stock-insider");
                reveal_strlit("/logs");
                reveal_strlit("/smart-stock-insider/logs");
                let a = "/smart-stock-insider"@;
                let l = "/logs"@;
                let al = "/smart-stock-insider/logs"@;
                assert(al =~= a + l);
                assert forall|i: int| 0 <= i < al.len() implies p@[p@.len() - al.len() + i]
                    == al[i] by {
                    if i < a.len() {
                        assert(data@.subrange(data@.len() - a.len(), data@.len() as int)[i]
                            == a[i]);
                    }
                }
                assert(p@.subrange(p@.len() - al.len(), p@.len() as int) =~= al);
            }
            Some(p)
        },
    }
}

} // verus!
