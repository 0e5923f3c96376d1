use vstd::prelude::*;
use vstd::string::*;

verus! {

/// How many versions a plain listing shows.
pub open spec fn version_limit() -> int {
    5
}

/// A version selector with an optional leading `v` marker stripped.
pub open spec fn strip_prefix_v(s: Seq<char>) -> Seq<char> {
    if s.len() > 0 && s[0] == 'v' {
        s.subrange(1, s.len() as int)
    } else {
        s
    }
}

/// The effective version string: the selector without its leading `v`, if any.
pub fn strip_version_prefix(s: &str) -> (r: String)
    ensures
        r@ == strip_prefix_v(s@),
{
    let n = s.unicode_len();
    if n > 0 && s.get_char(0) == 'v' {
        String::from_str(s.substring_char(1, n))
    } else {
        String::from_str(s)
    }
}

/// The listing a version sequence yields: the whole sequence when `all` is
/// asked for, otherwise at most the first five entries, in the same order.
pub fn limit_versions(versions: Vec<String>, all: bool) -> (r: Vec<String>)
    ensures
        all ==> r@ == versions@,
        !all ==> r@ == versions@.take(if versions@.len() < version_limit() {
            versions@.len() as int
        } else {
            version_limit()
        }),
{
    if all {
        versions
    } else {
        let mut r = versions;
        r.truncate(5);
        proof {
            if r@.len() <= version_limit() {
                assert(r@.take(r@.len() as int) =~= r@);
            }
        }
        r
    }
}

/// The most recent version: the first entry of the (newest-first) sequence.
pub fn latest_version(versions: &Vec<String>) -> (r: Option<String>)
    ensures
        r is Some <==> versions@.len() > 0,
        r matches Some(v) ==> v == versions@[0],
{
    if versions.len() == 0 {
        None
    } else {
        Some(versions[0].clone())
    }
}

/// The artifact file name a version downloads as.
pub open spec fn file_name_v(version: Seq<char>) -> Seq<char> {
    "Nextcloud-"@ + version + "-x86_64.AppImage"@
}

pub fn download_file_name(version: &str) -> (r: String)
    ensures
        r@ == file_name_v(version@),
{
    let mut r = String::from_str("Nextcloud-");
    r.append(version);
    r.append("-x86_64.AppImage");
    r
}

/// The download URL for a version: the release template with the version
/// substituted in both of its places.
pub open spec fn download_url_v(version: Seq<char>) -> Seq<char> {
    "https://github.com/nextcloud-releases/desktop/releases/download/v"@ + version + "/Nextcloud-"@
        + version + "-x86_64.AppImage"@
}

pub fn download_url(version: &str) -> (r: String)
    ensures
        r@ == download_url_v(version@),
{
    let mut r = String::from_str("https://github.com/nextcloud-releases/desktop/releases/download/v");
    r.append(version);
    r.append("/Nextcloud-");
    r.append(version);
    r.append("-x86_64.AppImage");
    r
}

/// Whether a command invocation stays within its allowed argument count:
/// at most `count` positional arguments beyond the command name, where
/// `total_args` counts the program name and the command too.
pub fn assert_additional_arg_limit(count: usize, total_args: usize) -> (ok: bool)
    requires
        count <= usize::MAX - 2,
    ensures
        ok == (total_args <= count + 2),
{
    total_args <= count + 2
}

/// Whether a command that takes no positional argument was given none.
pub fn assert_no_additional_args(total_args: usize) -> (ok: bool)
    ensures
        ok == (total_args <= 2),
{
    assert_additional_arg_limit(0, total_args)
}

/// What the optional argument of `list` asks for: the full listing, the
/// truncated one, or nothing valid.
pub fn parse_list_arg(arg: &Option<String>) -> (r: Option<bool>)
    ensures
        (*arg) is None ==> r == Some(false),
        arg matches Some(s) && s@ == "all"@ ==> r == Some(true),
        arg matches Some(s) && s@ != "all"@ ==> r is None,
{
    match arg.as_ref() {
        None => Some(false),
        Some(s) => {
            let all_word = String::from_str("all");
            if all_word.eq(s) {
                Some(true)
            } else {
                None
            }
        },
    }
}

} // verus!
