//! The crates.io registry.
use vstd::prelude::*;
use super::PackageMetadata;
use crate::json::{
    Json, items_in, items_of, member, member_of, opt_text, str_in, str_of, text_in, text_or,
    texts, u64_in, u64_of,
};
use crate::text::{joined, opt_str, owned, same_text};

verus! {

/// The address of a crate's document.
pub open spec fn metadata_url_of(package: Seq<char>) -> Seq<char> {
    "https://crates.io/api/v1/crates/"@ + package
}

/// The address of the dependency list of one version of a crate.
pub open spec fn dependencies_url_of(package: Seq<char>, version: Seq<char>) -> Seq<char> {
    "https://crates.io/api/v1/crates/"@ + package + "/"@ + version + "/dependencies"@
}

/// The `crate` part of a crate document.
pub open spec fn crate_info(data: Json) -> Json {
    member_of(data, "crate"@)
}

/// The newest version that a crate document names, or "unknown".
pub open spec fn max_version(data: Json) -> Seq<char> {
    text_or(str_of(member_of(crate_info(data), "max_version"@)), "unknown"@)
}

/// The version to describe: the one asked for, else the newest.
pub open spec fn chosen_version(data: Json, requested: Option<Seq<char>>) -> Seq<char> {
    match requested {
        Some(v) => v,
        None => max_version(data),
    }
}

/// The first entry of a version list whose number (`num`) is `v`.
pub open spec fn version_entry(entries: Seq<Json>, v: Seq<char>) -> Option<Json>
    decreases entries.len(),
{
    if entries.len() == 0 {
        None
    } else if str_of(member_of(entries[0], "num"@)) == Some(v) {
        Some(entries[0])
    } else {
        version_entry(entries.drop_first(), v)
    }
}

/// The release date: the creation time of the requested version's entry in
/// the document's version list, or the crate's last update where no version
/// is asked for.
pub open spec fn release_date(data: Json, requested: Option<Seq<char>>) -> Option<Seq<char>> {
    match requested {
        Some(v) => match items_of(member_of(data, "versions"@)) {
            Some(entries) => match version_entry(entries, v) {
                Some(e) => str_of(member_of(e, "created_at"@)),
                None => None,
            },
            None => None,
        },
        None => str_of(member_of(crate_info(data), "updated_at"@)),
    }
}

/// The crates that the entries of a dependency list name, in order, keeping
/// only the entries of kind "normal" that name a crate.
pub open spec fn normal_dependencies(deps: Seq<Json>) -> Seq<Seq<char>>
    decreases deps.len(),
{
    if deps.len() == 0 {
        Seq::empty()
    } else {
        let rest = normal_dependencies(deps.drop_last());
        let dep = deps.last();
        if str_of(member_of(dep, "kind"@)) == Some("normal"@) {
            match str_of(member_of(dep, "crate_id"@)) {
                Some(name) => rest.push(name),
                None => rest,
            }
        } else {
            rest
        }
    }
}

/// The dependencies that a dependency-list document names; none where the
/// list could not be had.
pub open spec fn dependencies(deps_data: Option<Json>) -> Seq<Seq<char>> {
    match deps_data {
        Some(d) => match items_of(member_of(d, "dependencies"@)) {
            Some(deps) => normal_dependencies(deps),
            None => Seq::empty(),
        },
        None => Seq::empty(),
    }
}

/// The exact license expression where there is one, else the license.
pub open spec fn license(data: Json) -> Option<Seq<char>> {
    match str_of(member_of(crate_info(data), "exact_match_license"@)) {
        Some(l) => Some(l),
        None => str_of(member_of(crate_info(data), "license"@)),
    }
}

/// The address of a crate's document.
pub fn metadata_url(package: &str) -> (r: String)
    ensures
        r@ == metadata_url_of(package@),
{
    joined("https://crates.io/api/v1/crates/", package)
}

/// The address of the dependency list of one version of a crate.
pub fn dependencies_url(package: &str, version: &str) -> (r: String)
    ensures
        r@ == dependencies_url_of(package@, version@),
{
    let mut r = joined("https://crates.io/api/v1/crates/", package);
    r.append("/");
    r.append(version);
    r.append("/dependencies");
    r
}

/// The version to describe: the one asked for, else the newest that a
/// crate document names, or "unknown".
pub fn version_from(data: &Json, requested: Option<&str>) -> (r: String)
    ensures
        r@ == chosen_version(*data, opt_str(requested)),
{
    match requested {
        Some(v) => owned(v),
        None => match str_in(member(member(Some(data), "crate"), "max_version")) {
            Some(v) => v.clone(),
            None => String::from_str("unknown"),
        },
    }
}

proof fn lemma_version_entry_skip(entries: Seq<Json>, v: Seq<char>, i: int)
    requires
        0 <= i < entries.len(),
    ensures
        version_entry(entries.skip(i), v) == (if str_of(member_of(entries[i], "num"@)) == Some(v) {
            Some(entries[i])
        } else {
            version_entry(entries.skip(i + 1), v)
        }),
{
    assert(entries.skip(i).drop_first() =~= entries.skip(i + 1));
    assert(entries.skip(i)[0] == entries[i]);
}

fn release_date_of_version(data: &Json, v: &str) -> (r: Option<String>)
    ensures
        opt_text(r) == release_date(*data, Some(v@)),
{
    match items_in(member(Some(data), "versions")) {
        Some(entries) => {
            let mut i: usize = 0;
            assert(entries@.skip(0) =~= entries@);
            while i < entries.len()
                invariant
                    i <= entries.len(),
                    items_of(member_of(*data, "versions"@)) == Some(entries@),
                    version_entry(entries@.skip(i as int), v@) == version_entry(entries@, v@),
                decreases entries.len() - i,
            {
                proof {
                    lemma_version_entry_skip(entries@, v@, i as int);
                }
                let e = Some(&entries[i]);
                let found = match str_in(member(e, "num")) {
                    Some(num) => same_text(num.as_str(), v),
                    None => false,
                };
                if found {
                    return text_in(member(e, "created_at"));
                }
                i = i + 1;
            }
            assert(entries@.skip(i as int) =~= Seq::<Json>::empty());
            None
        },
        None => None,
    }
}

fn dependencies_from(deps: &Vec<Json>) -> (r: Vec<String>)
    ensures
        texts(r@) == normal_dependencies(deps@),
{
    let mut r: Vec<String> = Vec::new();
    let mut i: usize = 0;
    while i < deps.len()
        invariant
            i <= deps.len(),
            texts(r@) == normal_dependencies(deps@.take(i as int)),
        decreases deps.len() - i,
    {
        let ghost before = r@;
        proof {
            assert(deps@.take(i + 1).drop_last() =~= deps@.take(i as int));
            assert(deps@.take(i + 1).last() == deps@[i as int]);
        }
        let dep = Some(&deps[i]);
        match str_in(member(dep, "kind")) {
            Some(kind) => {
                if same_text(kind.as_str(), "normal") {
                    match str_in(member(dep, "crate_id")) {
                        Some(name) => {
                            r.push(name.clone());
                            assert(texts(r@) =~= texts(before).push(name@));
                        },
                        None => {},
                    }
                }
            },
            None => {},
        }
        i = i + 1;
    }
    assert(deps@.take(deps.len() as int) =~= deps@);
    r
}

/// What a crate document tells of `package` at the `requested` version, or
/// at its newest where none is asked for. `deps_data` is the dependency list
/// of that version, where it could be had.
pub fn metadata_from(
    package: &str,
    data: &Json,
    deps_data: Option<&Json>,
    requested: Option<&str>,
) -> (r: PackageMetadata)
    ensures
        r.name@ == package@,
        r.version@ == chosen_version(*data, opt_str(requested)),
        opt_text(r.description) == str_of(member_of(crate_info(*data), "description"@)),
        opt_text(r.license) == license(*data),
        opt_text(r.repository_url) == str_of(member_of(crate_info(*data), "repository"@)),
        opt_text(r.latest_release_date) == release_date(*data, opt_str(requested)),
        texts(r.dependencies@) == dependencies(match deps_data {
            Some(d) => Some(*d),
            None => None,
        }),
        r.weekly_downloads == u64_of(member_of(crate_info(*data), "recent_downloads"@)),
{
    let info = member(Some(data), "crate");
    let version = version_from(data, requested);
    let dependencies = match deps_data {
        Some(d) => match items_in(member(Some(d), "dependencies")) {
            Some(deps) => dependencies_from(deps),
            None => {
                let v: Vec<String> = Vec::new();
                assert(texts(v@) =~= Seq::<Seq<char>>::empty());
                v
            },
        },
        None => {
            let v: Vec<String> = Vec::new();
            assert(texts(v@) =~= Seq::<Seq<char>>::empty());
            v
        },
    };
    let latest_release_date = match requested {
        Some(v) => release_date_of_version(data, v),
        None => text_in(member(info, "updated_at")),
    };
    let license = match text_in(member(info, "exact_match_license")) {
        Some(l) => Some(l),
        None => text_in(member(info, "license")),
    };
    PackageMetadata {
        name: String::from_str(package),
        version,
        description: text_in(member(info, "description")),
        license,
        repository_url: text_in(member(info, "repository")),
        latest_release_date,
        dependencies,
        weekly_downloads: u64_in(member(info, "recent_downloads")),
    }
}

/// An entry of a dependency list of kind "normal" that names a crate.
pub open spec fn is_normal_dependency(dep: Json) -> bool {
    str_of(member_of(dep, "kind"@)) == Some("normal"@) && str_of(member_of(dep, "crate_id"@))
        is Some
}

/// The crate that an entry of a dependency list names.
pub open spec fn dependency_crate(dep: Json) -> Seq<char> {
    str_of(member_of(dep, "crate_id"@)).unwrap()
}

/// The crates named by the normal entries among `deps`, in order.
pub open spec fn normal_entry_crates(deps: Seq<Json>) -> Seq<Seq<char>> {
    deps.filter(|d: Json| is_normal_dependency(d)).map_values(|d: Json| dependency_crate(d))
}

/// The dependencies listed are the crates named by the entries of kind
/// "normal", in order: no entry of another kind (build, dev) gives one, and
/// every normal entry that names a crate does.
pub proof fn law_only_normal_dependencies(deps: Seq<Json>)
    ensures
        normal_dependencies(deps) == normal_entry_crates(deps),
    decreases deps.len(),
{
    if deps.len() > 0 {
        law_only_normal_dependencies(deps.drop_last());
        reveal(Seq::filter);
        let sub = deps.drop_last().filter(|d: Json| is_normal_dependency(d));
        assert(deps.filter(|d: Json| is_normal_dependency(d)) == (if is_normal_dependency(
            deps.last(),
        ) {
            sub.push(deps.last())
        } else {
            sub
        }));
        if is_normal_dependency(deps.last()) {
            assert(sub.push(deps.last()).map_values(|d: Json| dependency_crate(d)) =~= sub.map_values(
                |d: Json| dependency_crate(d),
            ).push(dependency_crate(deps.last())));
        }
    }
}

/// The license of a crate is its exact license expression where the
/// document gives one as text, else its license text.
pub proof fn law_crates_exact_license_first(data: Json)
    ensures
        str_of(member_of(crate_info(data), "exact_match_license"@)) matches Some(l) ==> license(data)
            == Some(l),
        str_of(member_of(crate_info(data), "exact_match_license"@)) is None ==> license(data)
            == str_of(member_of(crate_info(data), "license"@)),
{
}

} // verus!
