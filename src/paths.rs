use crate::version::{version_text, Version};
use vstd::prelude::*;

verus! {

/// `rel` joined onto `base`, as a path join does it: an absolute `rel` replaces
/// `base`, and one separator stands between them.
pub open spec fn path_join(base: Seq<char>, rel: Seq<char>) -> Seq<char> {
    if rel.len() > 0 && rel[0] == '/' {
        rel
    } else if base.len() == 0 || base.last() == '/' {
        base + rel
    } else {
        base + seq!['/'] + rel
    }
}

/// Joins `rel` onto `base`.
pub fn join_path(base: &str, rel: &str) -> (r: String)
    ensures
        r@ == path_join(base@, rel@),
{
    let n = rel.unicode_len();
    if n > 0 && rel.get_char(0) == '/' {
        return String::from_str(rel);
    }
    let m = base.unicode_len();
    let r = String::from_str(base);
    if m == 0 || base.get_char(m - 1) == '/' {
        r.concat(rel)
    } else {
        proof {
            reveal_strlit("/");
        }
        r.concat("/").concat(rel)
    }
}

pub open spec fn default_install_spec(home: Seq<char>) -> Seq<char> {
    path_join(home, "bin/discord_bin/Discord/Discord"@)
}

/// Where the application is installed when no installation is found.
pub fn default_discord_path(home: &str) -> (r: String)
    ensures
        r@ == default_install_spec(home@),
{
    join_path(home, "bin/discord_bin/Discord/Discord")
}

pub open spec fn bin_dir_spec(home: Seq<char>) -> Seq<char> {
    path_join(home, "bin"@)
}

/// The directory that holds the convenience link.
pub fn home_bin_dir(home: &str) -> (r: String)
    ensures
        r@ == bin_dir_spec(home@),
{
    join_path(home, "bin")
}

pub open spec fn link_spec(home: Seq<char>) -> Seq<char> {
    path_join(bin_dir_spec(home), "discord"@)
}

/// Where the convenience link stands: `<home>/bin/discord`.
pub fn home_bin_link(home: &str) -> (r: String)
    ensures
        r@ == link_spec(home@),
{
    let bin = home_bin_dir(home);
    join_path(bin.as_str(), "discord")
}

pub open spec fn build_info_spec(install: Seq<char>) -> Seq<char> {
    path_join(install, "resources/build_info.json"@)
}

/// The metadata file that names the installed version.
pub fn build_info_path(install: &str) -> (r: String)
    ensures
        r@ == build_info_spec(install@),
{
    join_path(install, "resources/build_info.json")
}

pub open spec fn archive_name_spec(t: Seq<char>) -> Seq<char> {
    "discord-"@ + t + ".tar.gz"@
}

/// The file name of the release archive of a version.
pub fn archive_file_name(v: &Version) -> (r: String)
    ensures
        r@ == archive_name_spec(version_text(v@)),
{
    let t = v.to_text();
    String::from_str("discord-").concat(t.as_str()).concat(".tar.gz")
}

pub open spec fn download_url_spec(t: Seq<char>) -> Seq<char> {
    "https://dl.discordapp.net/apps/linux/"@ + t + "/"@ + archive_name_spec(t)
}

/// Where the release archive of a version is published:
/// `{base}/{version}/discord-{version}.tar.gz`.
pub fn download_url(v: &Version) -> (r: String)
    ensures
        r@ == download_url_spec(version_text(v@)),
{
    let t = v.to_text();
    let name = archive_file_name(v);
    let r = String::from_str("https://dl.discordapp.net/apps/linux/").concat(t.as_str()).concat(
        "/",
    ).concat(name.as_str());
    assert(r@ =~= download_url_spec(version_text(v@)));
    r
}

/// The index of the last `/` in `p`, or -1 where it has none.
pub open spec fn last_slash(p: Seq<char>) -> int
    decreases p.len(),
{
    if p.len() == 0 {
        -1
    } else if p.last() == '/' {
        p.len() - 1
    } else {
        last_slash(p.drop_last())
    }
}

/// The directory that holds the canonical path `p`: what comes before its
/// last `/` (the root where that is the first character); `None` for the
/// root itself and for an empty path.
pub open spec fn parent_spec(p: Seq<char>) -> Option<Seq<char>> {
    if p.len() == 0 || p == seq!['/'] {
        None
    } else if last_slash(p) < 0 {
        Some(Seq::<char>::empty())
    } else if last_slash(p) == 0 {
        Some(seq!['/'])
    } else {
        Some(p.subrange(0, last_slash(p)))
    }
}

/// The installation directory: the directory that holds the canonical path
/// of the installed binary.
pub fn install_dir_of(binary: &str) -> (r: Option<String>)
    ensures
        r.deep_view() == parent_spec(binary@),
{
    proof {
        reveal_strlit("/");
    }
    let n = binary.unicode_len();
    if n == 0 || (n == 1 && binary.get_char(0) == '/') {
        if n == 1 {
            assert(binary@ =~= seq!['/']);
        }
        return None;
    }
    let mut j: usize = n;
    assert(binary@.subrange(0, n as int) =~= binary@);
    while j > 0 && binary.get_char(j - 1) != '/'
        invariant
            j <= n,
            n == binary@.len(),
            last_slash(binary@) == last_slash(binary@.subrange(0, j as int)),
        decreases j,
    {
        assert(binary@.subrange(0, j as int).drop_last() =~= binary@.subrange(0, j as int - 1));
        j = j - 1;
    }
    if j == 0 {
        assert(binary@.subrange(0, 0) =~= Seq::<char>::empty());
        Some(String::new())
    } else if j == 1 {
        Some(String::from_str("/"))
    } else {
        Some(String::from_str(binary.substring_char(0, j - 1)))
    }
}

} // verus!
