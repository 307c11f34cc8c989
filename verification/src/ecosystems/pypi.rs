//! The Python Package Index.
use vstd::prelude::*;
use super::PackageMetadata;
use crate::json::{
    Json, items_in, items_of, lookup, lookup_in, member, member_of, opt_text, str_in,
    str_of, text_in, text_or, texts,
};
use crate::text::{first_word, first_word_of, joined, opt_str, owned};

verus! {

/// The address of the index document of a package, or of one version of it.
pub open spec fn metadata_url_of(package: Seq<char>, version: Option<Seq<char>>) -> Seq<char> {
    match version {
        Some(v) => "https://pypi.org/pypi/"@ + package + "/"@ + v + "/json"@,
        None => "https://pypi.org/pypi/"@ + package + "/json"@,
    }
}

/// The `info` part of an index document.
pub open spec fn info(data: Json) -> Json {
    member_of(data, "info"@)
}

/// The version to describe: the one asked for, else the one that the
/// document names, or "unknown".
pub open spec fn version(data: Json, requested: Option<Seq<char>>) -> Seq<char> {
    match requested {
        Some(v) => v,
        None => text_or(str_of(member_of(info(data), "version"@)), "unknown"@),
    }
}

/// The names of the required distributions: the first word of each
/// requirement that is a text and holds a word, in order.
pub open spec fn requirement_names(reqs: Seq<Json>) -> Seq<Seq<char>>
    decreases reqs.len(),
{
    if reqs.len() == 0 {
        Seq::empty()
    } else {
        let rest = requirement_names(reqs.drop_last());
        match str_of(reqs.last()) {
            Some(s) => if first_word(s).len() > 0 {
                rest.push(first_word(s))
            } else {
                rest
            },
            None => rest,
        }
    }
}

/// The dependencies that an index document lists.
pub open spec fn dependencies(data: Json) -> Seq<Seq<char>> {
    match items_of(member_of(info(data), "requires_dist"@)) {
        Some(reqs) => requirement_names(reqs),
        None => Seq::empty(),
    }
}

/// The "Source" project address, or where there is no such entry the
/// "Homepage" one, where it is a text.
pub open spec fn project_url(urls: Json) -> Option<Seq<char>> {
    match urls {
        Json::Object(ms) => match lookup(ms@, "Source"@) {
            Some(v) => str_of(v),
            None => match lookup(ms@, "Homepage"@) {
                Some(v) => str_of(v),
                None => None,
            },
        },
        _ => None,
    }
}

/// The upload time of the first file of a list of files.
pub open spec fn first_upload_time(files: Json) -> Option<Seq<char>> {
    match items_of(files) {
        Some(f) => if f.len() > 0 {
            str_of(member_of(f[0], "upload_time"@))
        } else {
            None
        },
        None => None,
    }
}

/// The upload time of the first file of the described version: from the
/// document's own file list (`urls`) in a document of a requested version,
/// from its `releases` entry in the document of the latest version.
pub open spec fn release_date(data: Json, requested: Option<Seq<char>>) -> Option<Seq<char>> {
    match requested {
        Some(_) => first_upload_time(member_of(data, "urls"@)),
        None => first_upload_time(member_of(member_of(data, "releases"@), version(data, requested))),
    }
}

/// The address of the index document of a package, or of one version of it.
pub fn metadata_url(package: &str, version: Option<&str>) -> (r: String)
    ensures
        r@ == metadata_url_of(package@, opt_str(version)),
{
    let mut r = joined("https://pypi.org/pypi/", package);
    match version {
        Some(v) => {
            r.append("/");
            r.append(v);
        },
        None => {},
    }
    r.append("/json");
    r
}

fn first_upload_time_in(files: Option<&Json>) -> (r: Option<String>)
    ensures
        opt_text(r) == first_upload_time(crate::json::or_null(files)),
{
    match items_in(files) {
        Some(f) => if f.len() > 0 {
            text_in(member(Some(&f[0]), "upload_time"))
        } else {
            None
        },
        None => None,
    }
}

fn requirements_from(reqs: &Vec<Json>) -> (r: Vec<String>)
    ensures
        texts(r@) == requirement_names(reqs@),
{
    let mut r: Vec<String> = Vec::new();
    let mut i: usize = 0;
    while i < reqs.len()
        invariant
            i <= reqs.len(),
            texts(r@) == requirement_names(reqs@.take(i as int)),
        decreases reqs.len() - i,
    {
        let ghost before = r@;
        proof {
            assert(reqs@.take(i + 1).drop_last() =~= reqs@.take(i as int));
            assert(reqs@.take(i + 1).last() == reqs@[i as int]);
        }
        match str_in(Some(&reqs[i])) {
            Some(s) => {
                let name = first_word_of(s.as_str());
                if name.as_str().is_empty() {
                } else {
                    r.push(name);
                    assert(texts(r@) =~= texts(before).push(first_word(s@)));
                }
            },
            None => {},
        }
        i = i + 1;
    }
    assert(reqs@.take(reqs.len() as int) =~= reqs@);
    r
}

fn project_url_from(urls: Option<&Json>) -> (r: Option<String>)
    ensures
        opt_text(r) == project_url(crate::json::or_null(urls)),
{
    match urls {
        Some(Json::Object(ms)) => {
            let found = match lookup_in(ms, "Source") {
                Some(v) => Some(v),
                None => lookup_in(ms, "Homepage"),
            };
            match found {
                Some(v) => text_in(Some(v)),
                None => None,
            }
        },
        _ => None,
    }
}

/// What an index document tells of `package`: the document of the
/// `requested` version, or of the latest where none is asked for.
pub fn metadata_from(package: &str, data: &Json, requested: Option<&str>) -> (r: PackageMetadata)
    ensures
        r.name@ == package@,
        r.version@ == version(*data, opt_str(requested)),
        opt_text(r.description) == str_of(member_of(info(*data), "summary"@)),
        opt_text(r.license) == str_of(member_of(info(*data), "license"@)),
        opt_text(r.repository_url) == project_url(member_of(info(*data), "project_urls"@)),
        opt_text(r.latest_release_date) == release_date(*data, opt_str(requested)),
        texts(r.dependencies@) == dependencies(*data),
        r.weekly_downloads is None,
{
    let root = Some(data);
    let info = member(root, "info");
    let version = match requested {
        Some(v) => owned(v),
        None => match str_in(member(info, "version")) {
            Some(v) => v.clone(),
            None => String::from_str("unknown"),
        },
    };
    let dependencies = match items_in(member(info, "requires_dist")) {
        Some(reqs) => requirements_from(reqs),
        None => {
            let v: Vec<String> = Vec::new();
            assert(texts(v@) =~= Seq::<Seq<char>>::empty());
            v
        },
    };
    let repository_url = project_url_from(member(info, "project_urls"));
    let latest_release_date = match requested {
        Some(_) => first_upload_time_in(member(root, "urls")),
        None => first_upload_time_in(member(member(root, "releases"), version.as_str())),
    };
    PackageMetadata {
        name: String::from_str(package),
        version,
        description: text_in(member(info, "summary")),
        license: text_in(member(info, "license")),
        repository_url,
        latest_release_date,
        dependencies,
        weekly_downloads: None,
    }
}

/// A requirement that is a text with a non-blank first word.
pub open spec fn is_named_requirement(j: Json) -> bool {
    match str_of(j) {
        Some(s) => first_word(s).len() > 0,
        None => false,
    }
}

/// The first word of a requirement text.
pub open spec fn requirement_word(j: Json) -> Seq<char> {
    first_word(str_of(j).unwrap())
}

/// The first words of the named requirements among `reqs`, in order.
pub open spec fn named_requirement_words(reqs: Seq<Json>) -> Seq<Seq<char>> {
    reqs.filter(|j: Json| is_named_requirement(j)).map_values(|j: Json| requirement_word(j))
}

/// Every requirement that is a text with a non-blank first word gives that
/// word, in order, and nothing else gives a name: the names are the first
/// words of the named requirements.
pub proof fn law_requirement_names_are_first_words(reqs: Seq<Json>)
    ensures
        requirement_names(reqs) == named_requirement_words(reqs),
    decreases reqs.len(),
{
    if reqs.len() > 0 {
        law_requirement_names_are_first_words(reqs.drop_last());
        reveal(Seq::filter);
        let sub = reqs.drop_last().filter(|j: Json| is_named_requirement(j));
        assert(reqs.filter(|j: Json| is_named_requirement(j)) == (if is_named_requirement(
            reqs.last(),
        ) {
            sub.push(reqs.last())
        } else {
            sub
        }));
        if is_named_requirement(reqs.last()) {
            assert(sub.push(reqs.last()).map_values(|j: Json| requirement_word(j)) =~= sub.map_values(
                |j: Json| requirement_word(j),
            ).push(requirement_word(reqs.last())));
        }
    }
}

/// The dependencies of an index document are the first words of the named
/// requirements in its `requires_dist` list, in order; none without a list.
pub proof fn law_pypi_dependencies(data: Json)
    ensures
        dependencies(data) == (match items_of(member_of(info(data), "requires_dist"@)) {
            Some(reqs) => named_requirement_words(reqs),
            None => Seq::empty(),
        }),
{
    if let Some(reqs) = items_of(member_of(info(data), "requires_dist"@)) {
        law_requirement_names_are_first_words(reqs);
    }
}

} // verus!
