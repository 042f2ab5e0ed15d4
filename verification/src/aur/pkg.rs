//! The kinds of package search that the AUR offers.

use vstd::prelude::*;

use crate::text::str_eq;

verus! {

/// Package search types
#[derive(Debug, Clone, Copy, PartialEq, Eq, Structural)]
pub enum By {
    /// Search by package name
    Name,
    /// Search by package name and description
    NameDesc,
    /// Search by maintainer
    Maintainer,
    /// Search by dependencies
    Depends,
    /// Search by dev dependencies
    MakeDepends,
    /// Search by optional dependencies
    OptDepends,
    /// Search by testing dependencies
    CheckDepends,
}

/// The name of a search kind in the AUR RPC interface.
pub open spec fn by_repr(b: By) -> Seq<char> {
    match b {
        By::Name => "name"@,
        By::NameDesc => "name-desc"@,
        By::Maintainer => "maintainer"@,
        By::Depends => "depends"@,
        By::MakeDepends => "makedepends"@,
        By::OptDepends => "optdepends"@,
        By::CheckDepends => "checkdepends"@,
    }
}

/// All search kinds, in the order in which they are listed.
pub open spec fn by_all() -> Seq<By> {
    seq![
        By::Name,
        By::NameDesc,
        By::Maintainer,
        By::Depends,
        By::MakeDepends,
        By::OptDepends,
        By::CheckDepends,
    ]
}

/// The search kind whose name is `s`, if any.
pub open spec fn by_parse(s: Seq<char>) -> Result<By, ()> {
    if s == "name"@ {
        Ok(By::Name)
    } else if s == "name-desc"@ {
        Ok(By::NameDesc)
    } else if s == "maintainer"@ {
        Ok(By::Maintainer)
    } else if s == "depends"@ {
        Ok(By::Depends)
    } else if s == "makedepends"@ {
        Ok(By::MakeDepends)
    } else if s == "optdepends"@ {
        Ok(By::OptDepends)
    } else if s == "checkdepends"@ {
        Ok(By::CheckDepends)
    } else {
        Err(())
    }
}

impl By {
    /// The name of this search kind in the AUR RPC interface.
    pub fn as_api_repr(&self) -> (r: &'static str)
        ensures
            r@ == by_repr(*self),
    {
        match self {
            By::Name => "name",
            By::NameDesc => "name-desc",
            By::Maintainer => "maintainer",
            By::Depends => "depends",
            By::MakeDepends => "makedepends",
            By::OptDepends => "optdepends",
            By::CheckDepends => "checkdepends",
        }
    }

    /// The names of all search kinds.
    pub fn possible_values() -> (r: &'static [&'static str])
        ensures
            r@.len() == by_all().len(),
            forall|i: int| 0 <= i < r@.len() ==> (#[trigger] r@[i])@ == by_repr(by_all()[i]),
    {
        &["name", "name-desc", "maintainer", "depends", "makedepends", "optdepends", "checkdepends"]
    }

    /// The search kind named `s`; `Err(())` for any other string.
    pub fn from_str(s: &str) -> (r: Result<By, ()>)
        ensures
            r == by_parse(s@),
    {
        if str_eq(s, "name") {
            Ok(By::Name)
        } else if str_eq(s, "name-desc") {
            Ok(By::NameDesc)
        } else if str_eq(s, "maintainer") {
            Ok(By::Maintainer)
        } else if str_eq(s, "depends") {
            Ok(By::Depends)
        } else if str_eq(s, "makedepends") {
            Ok(By::MakeDepends)
        } else if str_eq(s, "optdepends") {
            Ok(By::OptDepends)
        } else if str_eq(s, "checkdepends") {
            Ok(By::CheckDepends)
        } else {
            Err(())
        }
    }
}

/// Every search kind is read back from its own name.
pub proof fn lemma_by_round_trip(b: By)
    ensures
        by_parse(by_repr(b)) == Ok::<By, ()>(b),
{
    reveal_strlit("name");
    reveal_strlit("name-desc");
    reveal_strlit("maintainer");
    reveal_strlit("depends");
    reveal_strlit("makedepends");
    reveal_strlit("optdepends");
    reveal_strlit("checkdepends");
    match b {
        By::Name => {},
        By::NameDesc => {
            assert("name-desc"@.len() != "name"@.len());
        },
        By::Maintainer => {
            assert("maintainer"@.len() != "name"@.len());
            assert("maintainer"@[0] != "name-desc"@[0]);
        },
        By::Depends => {
            assert("depends"@[0] != "name"@[0]);
            assert("depends"@[0] != "name-desc"@[0]);
            assert("depends"@[0] != "maintainer"@[0]);
        },
        By::MakeDepends => {
            assert("makedepends"@[0] != "name"@[0]);
            assert("makedepends"@[0] != "name-desc"@[0]);
            assert("makedepends"@[2] != "maintainer"@[2]);
            assert("makedepends"@[0] != "depends"@[0]);
        },
        By::OptDepends => {
            assert("optdepends"@[0] != "name"@[0]);
            assert("optdepends"@[0] != "name-desc"@[0]);
            assert("optdepends"@[0] != "maintainer"@[0]);
            assert("optdepends"@[0] != "depends"@[0]);
            assert("optdepends"@[0] != "makedepends"@[0]);
        },
        By::CheckDepends => {
            assert("checkdepends"@[0] != "name"@[0]);
            assert("checkdepends"@[0] != "name-desc"@[0]);
            assert("checkdepends"@[0] != "maintainer"@[0]);
            assert("checkdepends"@[0] != "depends"@[0]);
            assert("checkdepends"@[0] != "makedepends"@[0]);
            assert("checkdepends"@[0] != "optdepends"@[0]);
        },
    }
}

/// A string is accepted as a search kind exactly when it is one of the
/// listed names, and then it is that kind's name.
pub proof fn lemma_by_parse_listed(s: Seq<char>)
    ensures
        by_parse(s) is Ok <==> exists|i: int| 0 <= i < by_all().len() && by_repr(by_all()[i]) == s,
        by_parse(s) matches Ok(b) ==> by_repr(b) == s,
{
    reveal_strlit("name");
    reveal_strlit("name-desc");
    reveal_strlit("maintainer");
    reveal_strlit("depends");
    reveal_strlit("makedepends");
    reveal_strlit("optdepends");
    reveal_strlit("checkdepends");
    if by_parse(s) is Ok {
        let b = by_parse(s).unwrap();
        let i: int = match b {
            By::Name => 0,
            By::NameDesc => 1,
            By::Maintainer => 2,
            By::Depends => 3,
            By::MakeDepends => 4,
            By::OptDepends => 5,
            By::CheckDepends => 6,
        };
        assert(by_repr(by_all()[i]) == s);
    }
}

} // verus!
