//! The package record that the AUR RPC interface returns.

use vstd::prelude::*;

use crate::db::command::{copy_strings, opt_string_view, strings_view};

verus! {

// schema from: https://aur.archlinux.org/rpc/swagger
/// A package as the AUR describes it.
#[derive(Debug)]
pub struct Package {
    pub id: u64,
    pub name: String,
    pub description: Option<String>,
    pub package_base_id: u64,
    pub package_base: String,
    pub maintainer: Option<String>,
    pub num_votes: u64,
    /// The popularity score, as the bit pattern of its `f32` value.
    pub popularity: u32,
    pub first_submitted: u64,
    pub last_modified: u64,
    pub out_of_date: Option<u64>,
    pub version: String,
    pub url_path: Option<String>,
    pub url: Option<String>,
    pub depends: Option<Vec<String>>,
    pub make_depends: Option<Vec<String>>,
    pub opt_depends: Option<Vec<String>>,
    pub check_depends: Option<Vec<String>>,
    pub conflicts: Option<Vec<String>>,
    pub provides: Option<Vec<String>>,
    pub replaces: Option<Vec<String>>,
    pub groups: Option<Vec<String>>,
    pub license: Option<Vec<String>>,
    pub keywords: Option<Vec<String>>,
}

/// The abstract value of a package: its fields, strings as characters.
pub struct PackageView {
    pub id: u64,
    pub name: Seq<char>,
    pub description: Option<Seq<char>>,
    pub package_base_id: u64,
    pub package_base: Seq<char>,
    pub maintainer: Option<Seq<char>>,
    pub num_votes: u64,
    pub popularity: u32,
    pub first_submitted: u64,
    pub last_modified: u64,
    pub out_of_date: Option<u64>,
    pub version: Seq<char>,
    pub url_path: Option<Seq<char>>,
    pub url: Option<Seq<char>>,
    pub depends: Option<Seq<Seq<char>>>,
    pub make_depends: Option<Seq<Seq<char>>>,
    pub opt_depends: Option<Seq<Seq<char>>>,
    pub check_depends: Option<Seq<Seq<char>>>,
    pub conflicts: Option<Seq<Seq<char>>>,
    pub provides: Option<Seq<Seq<char>>>,
    pub replaces: Option<Seq<Seq<char>>>,
    pub groups: Option<Seq<Seq<char>>>,
    pub license: Option<Seq<Seq<char>>>,
    pub keywords: Option<Seq<Seq<char>>>,
}

/// The characters of each string of an optional list.
pub open spec fn opt_strings_view(o: Option<Vec<String>>) -> Option<Seq<Seq<char>>> {
    match o {
        Some(v) => Some(strings_view(v@)),
        None => None,
    }
}

impl View for Package {
    type V = PackageView;

    open spec fn view(&self) -> PackageView {
        PackageView {
            id: self.id,
            name: self.name@,
            description: opt_string_view(self.description),
            package_base_id: self.package_base_id,
            package_base: self.package_base@,
            maintainer: opt_string_view(self.maintainer),
            num_votes: self.num_votes,
            popularity: self.popularity,
            first_submitted: self.first_submitted,
            last_modified: self.last_modified,
            out_of_date: self.out_of_date,
            version: self.version@,
            url_path: opt_string_view(self.url_path),
            url: opt_string_view(self.url),
            depends: opt_strings_view(self.depends),
            make_depends: opt_strings_view(self.make_depends),
            opt_depends: opt_strings_view(self.opt_depends),
            check_depends: opt_strings_view(self.check_depends),
            conflicts: opt_strings_view(self.conflicts),
            provides: opt_strings_view(self.provides),
            replaces: opt_strings_view(self.replaces),
            groups: opt_strings_view(self.groups),
            license: opt_strings_view(self.license),
            keywords: opt_strings_view(self.keywords),
        }
    }
}

/// A copy of an optional string.
pub fn copy_opt_string(o: &Option<String>) -> (r: Option<String>)
    ensures
        opt_string_view(r) == opt_string_view(*o),
{
    match o {
        Some(s) => Some(s.clone()),
        None => None,
    }
}

/// A copy of an optional list of strings.
pub fn copy_opt_strings(o: &Option<Vec<String>>) -> (r: Option<Vec<String>>)
    ensures
        opt_strings_view(r) == opt_strings_view(*o),
{
    match o {
        Some(v) => Some(copy_strings(v)),
        None => None,
    }
}

impl Package {
    /// A package with the given name and every other field empty or zero.
    pub fn named(name: &str) -> (r: Package)
        ensures
            r@.name == name@,
            r@.id == 0,
            r@.description == None::<Seq<char>>,
            r@.package_base_id == 0,
            r@.package_base == Seq::<char>::empty(),
            r@.maintainer == None::<Seq<char>>,
            r@.num_votes == 0,
            r@.popularity == 0,
            r@.first_submitted == 0,
            r@.last_modified == 0,
            r@.out_of_date == None::<u64>,
            r@.version == Seq::<char>::empty(),
            r@.url_path == None::<Seq<char>>,
            r@.url == None::<Seq<char>>,
            r@.depends == None::<Seq<Seq<char>>>,
            r@.make_depends == None::<Seq<Seq<char>>>,
            r@.opt_depends == None::<Seq<Seq<char>>>,
            r@.check_depends == None::<Seq<Seq<char>>>,
            r@.conflicts == None::<Seq<Seq<char>>>,
            r@.provides == None::<Seq<Seq<char>>>,
            r@.replaces == None::<Seq<Seq<char>>>,
            r@.groups == None::<Seq<Seq<char>>>,
            r@.license == None::<Seq<Seq<char>>>,
            r@.keywords == None::<Seq<Seq<char>>>,
    {
        Package {
            id: 0,
            name: name.to_owned(),
            description: None,
            package_base_id: 0,
            package_base: String::new(),
            maintainer: None,
            num_votes: 0,
            popularity: 0,
            first_submitted: 0,
            last_modified: 0,
            out_of_date: None,
            version: String::new(),
            url_path: None,
            url: None,
            depends: None,
            make_depends: None,
            opt_depends: None,
            check_depends: None,
            conflicts: None,
            provides: None,
            replaces: None,
            groups: None,
            license: None,
            keywords: None,
        }
    }

    /// A field-by-field copy of this package.
    pub fn duplicate(&self) -> (r: Package)
        ensures
            r@ == self@,
    {
        Package {
            id: self.id,
            name: self.name.clone(),
            description: copy_opt_string(&self.description),
            package_base_id: self.package_base_id,
            package_base: self.package_base.clone(),
            maintainer: copy_opt_string(&self.maintainer),
            num_votes: self.num_votes,
            popularity: self.popularity,
            first_submitted: self.first_submitted,
            last_modified: self.last_modified,
            out_of_date: self.out_of_date,
            version: self.version.clone(),
            url_path: copy_opt_string(&self.url_path),
            url: copy_opt_string(&self.url),
            depends: copy_opt_strings(&self.depends),
            make_depends: copy_opt_strings(&self.make_depends),
            opt_depends: copy_opt_strings(&self.opt_depends),
            check_depends: copy_opt_strings(&self.check_depends),
            conflicts: copy_opt_strings(&self.conflicts),
            provides: copy_opt_strings(&self.provides),
            replaces: copy_opt_strings(&self.replaces),
            groups: copy_opt_strings(&self.groups),
            license: copy_opt_strings(&self.license),
            keywords: copy_opt_strings(&self.keywords),
        }
    }
}

} // verus!
