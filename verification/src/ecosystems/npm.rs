//! The npm registry.
use vstd::prelude::*;
use super::PackageMetadata;
use crate::json::{
    Json, keys_in, keys_of, member, member_of, opt_text, str_in, str_of, text_in, text_or, texts,
    u64_in, u64_of,
};
use crate::text::{joined, opt_str, owned, replace_all, replaced};

verus! {

/// The address of a package's document in the npm registry.
pub open spec fn metadata_url_of(package: Seq<char>) -> Seq<char> {
    "https://registry.npmjs.org/"@ + package
}

/// The address of a package's download count for the last week.
pub open spec fn downloads_url_of(package: Seq<char>) -> Seq<char> {
    "https://api.npmjs.org/downloads/point/last-week/"@ + package
}

/// The latest version that a registry document names, or "unknown".
pub open spec fn latest_version(data: Json) -> Seq<char> {
    text_or(str_of(member_of(member_of(data, "dist-tags"@), "latest"@)), "unknown"@)
}

/// The version to describe: the one asked for, else the latest.
pub open spec fn chosen_version(data: Json, requested: Option<Seq<char>>) -> Seq<char> {
    match requested {
        Some(v) => v,
        None => latest_version(data),
    }
}

/// The document of the chosen version.
pub open spec fn release_doc(data: Json, requested: Option<Seq<char>>) -> Json {
    member_of(member_of(data, "versions"@), chosen_version(data, requested))
}

/// The repository address with "git+" taken out and "git://" made "https://".
pub open spec fn repository_url(data: Json) -> Option<Seq<char>> {
    match str_of(member_of(member_of(data, "repository"@), "url"@)) {
        Some(u) => Some(replaced(replaced(u, "git+"@, ""@), "git://"@, "https://"@)),
        None => None,
    }
}

/// The download count of a download-count document, 0 where it has none.
pub open spec fn weekly_downloads(data: Json) -> u64 {
    match u64_of(member_of(data, "downloads"@)) {
        Some(n) => n,
        None => 0,
    }
}

/// The address of a package's document in the npm registry.
pub fn metadata_url(package: &str) -> (r: String)
    ensures
        r@ == metadata_url_of(package@),
{
    joined("https://registry.npmjs.org/", package)
}

/// The address of a package's download count for the last week.
pub fn downloads_url(package: &str) -> (r: String)
    ensures
        r@ == downloads_url_of(package@),
{
    joined("https://api.npmjs.org/downloads/point/last-week/", package)
}

/// The download count of a download-count document, 0 where it has none.
pub fn downloads_from(data: &Json) -> (r: u64)
    ensures
        r == weekly_downloads(*data),
{
    match u64_in(member(Some(data), "downloads")) {
        Some(n) => n,
        None => 0,
    }
}

/// What a registry document tells of `package` at the `requested` version,
/// or at its latest version where none is asked for. `downloads` is the
/// download-count document, where it could be had.
pub fn metadata_from(
    package: &str,
    data: &Json,
    downloads: Option<&Json>,
    requested: Option<&str>,
) -> (r: PackageMetadata)
    ensures
        r.name@ == package@,
        r.version@ == chosen_version(*data, opt_str(requested)),
        opt_text(r.description) == str_of(member_of(*data, "description"@)),
        opt_text(r.license) == str_of(member_of(*data, "license"@)),
        opt_text(r.repository_url) == repository_url(*data),
        opt_text(r.latest_release_date) == str_of(
            member_of(member_of(*data, "time"@), chosen_version(*data, opt_str(requested))),
        ),
        texts(r.dependencies@) == keys_of(
            member_of(release_doc(*data, opt_str(requested)), "dependencies"@),
        ),
        r.weekly_downloads == (match downloads {
            Some(d) => Some(weekly_downloads(*d)),
            None => None,
        }),
{
    let root = Some(data);
    let version = match requested {
        Some(v) => owned(v),
        None => match str_in(member(member(root, "dist-tags"), "latest")) {
            Some(v) => v.clone(),
            None => String::from_str("unknown"),
        },
    };
    let latest = member(member(root, "versions"), version.as_str());
    let dependencies = keys_in(member(latest, "dependencies"));
    let repository_url = match str_in(member(member(root, "repository"), "url")) {
        Some(u) => {
            let plain = replace_all(u.as_str(), "git+", "");
            Some(replace_all(plain.as_str(), "git://", "https://"))
        },
        None => None,
    };
    let latest_release_date = text_in(member(member(root, "time"), version.as_str()));
    let weekly_downloads = match downloads {
        Some(d) => Some(downloads_from(d)),
        None => None,
    };
    PackageMetadata {
        name: String::from_str(package),
        version,
        description: text_in(member(root, "description")),
        license: text_in(member(root, "license")),
        repository_url,
        latest_release_date,
        dependencies,
        weekly_downloads,
    }
}

/// With no version asked for, the version described is the one that the
/// document's `dist-tags` names as `latest` (and no other tag), or "unknown"
/// where it names none; with a version asked for, it is that version.
pub proof fn law_npm_version_is_latest_tag(data: Json, requested: Option<Seq<char>>)
    ensures
        requested is None ==> chosen_version(data, requested) == text_or(
            str_of(member_of(member_of(data, "dist-tags"@), "latest"@)),
            "unknown"@,
        ),
        requested matches Some(v) ==> chosen_version(data, requested) == v,
        forall|v: String|
            requested is None && #[trigger] member_of(member_of(data, "dist-tags"@), "latest"@)
                == Json::Str(v) ==> chosen_version(data, requested) == v@,
{
}

} // verus!
