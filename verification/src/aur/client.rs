//! The AUR client: the request URLs of searches and package lookups, the
//! checks on responses, and the package cache that lookups go through.
//! The transfer itself is carried out by the caller between the request
//! and the result functions.

use std::time::Duration;

use vstd::prelude::*;

use crate::aur::cache::{duration_nanos, Cache};
use crate::aur::package::{Package, PackageView};
use crate::aur::pkg::{by_parse, by_repr, lemma_by_round_trip, By};
use crate::db::command::{copy_strings, opt_string_view, strings_view};
use crate::text::{lemma_trim_end_char_removes_all, trim, trim_end_char, trim_end_matching, trimmed};

verus! {

/// The version of the RPC interface that is spoken.
pub const AUR_VERSION: usize = 5;

/// A response of the AUR RPC interface.
#[derive(Debug)]
pub struct Response {
    pub count: usize,
    pub results: Vec<Package>,
    pub query_type: String,
    pub version: usize,
    pub error: Option<String>,
}

/// The ways a request to the AUR fails.
#[derive(Debug)]
pub enum AurError {
    /// The response was not one this client understands.
    InvalidResponse(String),
    /// The AUR reported an error for the query.
    Query(String),
    /// The transfer failed.
    Request(String),
}

/// The RPC endpoint of the instance at `base`.
pub open spec fn rpc_url(base: Seq<char>) -> Seq<char> {
    base + "/rpc/?v=5"@
}

/// Each of `args` preceded by `prefix`, in order.
pub open spec fn url_args(prefix: Seq<char>, args: Seq<Seq<char>>) -> Seq<char>
    decreases args.len(),
{
    if args.len() == 0 {
        Seq::empty()
    } else {
        url_args(prefix, args.drop_last()) + prefix + args.last()
    }
}

/// The URL of a search by `by` for `keywords`.
pub open spec fn search_url(base: Seq<char>, by: By, keywords: Seq<Seq<char>>) -> Seq<char> {
    rpc_url(base) + "&type=search&by="@ + by_repr(by) + url_args("&arg="@, keywords)
}

/// The URL of a lookup of the packages `names`.
pub open spec fn info_url(base: Seq<char>, names: Seq<Seq<char>>) -> Seq<char> {
    rpc_url(base) + "&type=info"@ + url_args("&arg[]="@, names)
}

/// The elements of `s` whose flag in `f` is `b`, in order.
pub open spec fn pick(s: Seq<Seq<char>>, f: Seq<bool>, b: bool) -> Seq<Seq<char>>
    decreases s.len(),
{
    if s.len() == 0 || f.len() != s.len() {
        Seq::empty()
    } else if f.last() == b {
        pick(s.drop_last(), f.drop_last(), b).push(s.last())
    } else {
        pick(s.drop_last(), f.drop_last(), b)
    }
}

/// `m` with each of `ps` stored under its name, in order.
pub open spec fn insert_all(m: Map<Seq<char>, Package>, ps: Seq<Package>) -> Map<Seq<char>, Package>
    decreases ps.len(),
{
    if ps.len() == 0 {
        m
    } else {
        insert_all(m, ps.drop_last()).insert(ps.last().name@, ps.last())
    }
}

/// The packages stored in `m` under `names`, in order; names without a
/// package are passed over.
pub open spec fn collect(m: Map<Seq<char>, Package>, names: Seq<Seq<char>>) -> Seq<Package>
    decreases names.len(),
{
    if names.len() == 0 {
        Seq::empty()
    } else if m.contains_key(names.last()) {
        collect(m, names.drop_last()).push(m[names.last()])
    } else {
        collect(m, names.drop_last())
    }
}

/// A search URL names the requested kind: searches of different kinds
/// (for the same instance and keywords) go to different URLs, and the
/// kind's name in the URL is one that reads back as that kind.
pub proof fn lemma_search_url_names_the_kind(base: Seq<char>, b1: By, b2: By, keywords: Seq<Seq<char>>)
    ensures
        search_url(base, b1, keywords) == search_url(base, b2, keywords) ==> b1 == b2,
        b1 != b2 ==> search_url(base, b1, keywords) != search_url(base, b2, keywords),
        by_parse(by_repr(b1)) == Ok::<By, ()>(b1),
        search_url(base, b1, keywords) == rpc_url(base) + "&type=search&by="@ + by_repr(b1) + url_args(
            "&arg="@,
            keywords,
        ),
{
    lemma_by_round_trip(b1);
    lemma_by_round_trip(b2);
    let p = rpc_url(base) + "&type=search&by="@;
    let a = url_args("&arg="@, keywords);
    let u1 = search_url(base, b1, keywords);
    let u2 = search_url(base, b2, keywords);
    assert(u1 =~= p + by_repr(b1) + a);
    assert(u2 =~= p + by_repr(b2) + a);
    if u1 == u2 {
        let r1 = by_repr(b1);
        let r2 = by_repr(b2);
        assert(r1.len() == r2.len());
        assert(r1 =~= u1.subrange(p.len() as int, (p.len() + r1.len()) as int));
        assert(r2 =~= u2.subrange(p.len() as int, (p.len() + r2.len()) as int));
    }
}

/// The URL a client is made with never ends with a slash, so the request
/// URLs join it to the endpoint with exactly one.
pub proof fn lemma_base_has_no_trailing_slash(url: Seq<char>)
    ensures
        trim_end_char(trim(url), '/').len() == 0 || trim_end_char(trim(url), '/').last() != '/',
{
    lemma_trim_end_char_removes_all(trim(url), '/');
}

/// The plan of a package lookup: which names the cache answers, which must
/// be fetched, and the URL to fetch them from.
#[derive(Debug)]
pub struct InfoRequest {
    pub cached: Vec<String>,
    pub missing: Vec<String>,
    pub url: Option<String>,
}

/// A client of the AUR instance at a URL, with its package cache.
#[derive(Debug)]
pub struct Aur {
    url: String,
    cache: Cache<Package>,
}

/// Appends each of `args`, preceded by `prefix`, to `out`.
fn push_url_args(out: &mut String, prefix: &str, args: &Vec<String>)
    ensures
        final(out)@ == old(out)@ + url_args(prefix@, strings_view(args@)),
{
    let mut i: usize = 0;
    while i < args.len()
        invariant
            i <= args.len(),
            out@ == old(out)@ + url_args(prefix@, strings_view(args@).subrange(0, i as int)),
        decreases args.len() - i,
    {
        out.append(prefix);
        out.append(args[i].as_str());
        proof {
            let p = strings_view(args@).subrange(0, i as int + 1);
            assert(p.drop_last() =~= strings_view(args@).subrange(0, i as int));
        }
        assert(out@ =~= old(out)@ + url_args(prefix@, strings_view(args@).subrange(0, i as int + 1)));
        i = i + 1;
    }
    assert(strings_view(args@).subrange(0, args.len() as int) =~= strings_view(args@));
}

impl Aur {
    /// The URL of the instance.
    pub closed spec fn base(&self) -> Seq<char> {
        self.url@
    }

    /// The packages in the cache, by name.
    pub closed spec fn cached(&self) -> Map<Seq<char>, Package> {
        self.cache.view()
    }

    /// The time to live of cache entries added from now on, in nanoseconds.
    pub closed spec fn ttl_nanos(&self) -> u128 {
        self.cache.ttl_nanos()
    }

    /// The cache is consistent.
    pub closed spec fn wf(&self) -> bool {
        self.cache.wf()
    }

    /// A client of the instance at `url`, with surrounding whitespace and
    /// trailing slashes removed from the URL, and an empty cache whose
    /// entries live for five minutes.
    pub fn new(url: &str) -> (r: Aur)
        ensures
            r.wf(),
            r.base() == trim_end_char(trim(url@), '/'),
            r.cached() == Map::<Seq<char>, Package>::empty(),
            r.ttl_nanos() == 300_000_000_000,
    {
        let t = trimmed(url);
        let u = trim_end_matching(t.as_str(), '/');
        Aur { url: u, cache: Cache::new(Duration::from_secs(5 * 60)) }
    }

    /// The URL of the instance.
    pub fn get_url(&self) -> (r: &str)
        ensures
            r@ == self.base(),
    {
        self.url.as_str()
    }

    /// Replaces the URL of the instance, as given.
    pub fn url(&mut self, url: &str)
        requires
            old(self).wf(),
        ensures
            final(self).wf(),
            final(self).base() == url@,
            final(self).cached() == old(self).cached(),
    {
        self.url = url.to_owned();
    }

    /// Sets the time to live of cache entries added from now on.
    pub fn ttl(&mut self, ttl: Duration)
        requires
            old(self).wf(),
        ensures
            final(self).wf(),
            final(self).base() == old(self).base(),
            final(self).cached() == old(self).cached(),
            final(self).ttl_nanos() == duration_nanos(ttl),
    {
        self.cache.set_ttl(ttl);
    }

    fn prepare_rpc_url(&self) -> (r: String)
        ensures
            r@ == rpc_url(self.base()),
    {
        let mut u = self.url.clone();
        u.append("/rpc/?v=5");
        u
    }

    /// The URL of a search by `by` for `keywords`.
    pub fn search_request(&self, by: By, keywords: &Vec<String>) -> (r: String)
        ensures
            r@ == search_url(self.base(), by, strings_view(keywords@)),
    {
        let mut u = self.prepare_rpc_url();
        u.append("&type=search&by=");
        u.append(by.as_api_repr());
        push_url_args(&mut u, "&arg=", keywords);
        u
    }

    /// The packages of a search response, once the response is judged
    /// sound by `check_response`; a failed transfer stays a failure.
    pub fn search_results(fetched: Result<Response, AurError>) -> (r: Result<Vec<Package>, AurError>)
        ensures
            fetched is Err ==> r == Err::<Vec<Package>, AurError>(fetched->Err_0),
            fetched matches Ok(resp) ==> (resp.version != AUR_VERSION ==> (r matches Err(
                AurError::InvalidResponse(m),
            ) && m@ == "mismatched versions"@)),
            fetched matches Ok(resp) ==> (resp.version == AUR_VERSION && resp.error is Some ==> r
                == Err::<Vec<Package>, AurError>(AurError::Query(resp.error.unwrap()))),
            fetched matches Ok(resp) ==> (resp.version == AUR_VERSION && resp.error is None ==> r
                == Ok::<Vec<Package>, AurError>(resp.results)),
    {
        match fetched {
            Err(e) => Err(e),
            Ok(resp) => match Aur::check_response(resp) {
                Ok(resp) => Ok(resp.results),
                Err(e) => Err(e),
            },
        }
    }

    /// What a read of `k` from the cache gives once `elapsed` nanoseconds
    /// have passed since its entry was stored: the package while the entry
    /// lives, nothing for a missing or expired entry.
    pub closed spec fn read_at(&self, k: Seq<char>, elapsed: int) -> Option<Package> {
        self.cache.read_at(k, elapsed)
    }

    /// The cache holds an entry for `k` whose time to live is the largest
    /// there is, so that it never expires.
    pub closed spec fn never_expires(&self, k: Seq<char>) -> bool {
        self.cache.items().contains_key(k) && self.cache.entry_ttl(k) == u128::MAX
    }

    /// Which of `packages` the cache answers when the entry of each has been
    /// stored for the matching time of `ages`.
    pub open spec fn live_flags(&self, packages: Seq<String>, ages: Seq<u128>) -> Seq<bool> {
        Seq::new(packages.len(), |i: int| self.read_at(packages[i]@, ages[i] as int) is Some)
    }

    /// Plans the lookup of `packages` when the cache entry of each name has
    /// been stored for the matching time of `ages` (in nanoseconds): each
    /// name goes, in order, to the names the cache answers when its entry
    /// is live after that time, and to the names to fetch otherwise; the
    /// URL is that of a lookup of the names to fetch, and there is none
    /// when every name is answered.
    pub fn info_request_after(&self, packages: &Vec<String>, ages: &Vec<u128>) -> (r: InfoRequest)
        requires
            self.wf(),
            ages@.len() == packages@.len(),
        ensures
            strings_view(r.cached@) == pick(strings_view(packages@), self.live_flags(packages@, ages@), true),
            strings_view(r.missing@) == pick(strings_view(packages@), self.live_flags(packages@, ages@), false),
            opt_string_view(r.url) == (if r.missing@.len() == 0 {
                None::<Seq<char>>
            } else {
                Some(info_url(self.base(), strings_view(r.missing@)))
            }),
    {
        let mut cached: Vec<String> = Vec::new();
        let mut missing: Vec<String> = Vec::new();
        let ghost mut f: Seq<bool> = Seq::empty();
        let mut i: usize = 0;
        while i < packages.len()
            invariant
                self.wf(),
                ages@.len() == packages@.len(),
                i <= packages.len(),
                f.len() == i,
                strings_view(cached@) == pick(strings_view(packages@.subrange(0, i as int)), f, true),
                strings_view(missing@) == pick(strings_view(packages@.subrange(0, i as int)), f, false),
                forall|j: int| 0 <= j < f.len() ==> f[j] == (self.read_at(packages@[j]@, ages@[j] as int) is Some),
            decreases packages.len() - i,
        {
            let ghost pre = strings_view(packages@.subrange(0, i as int));
            let ghost post = strings_view(packages@.subrange(0, i as int + 1));
            assert(post.drop_last() =~= pre);
            assert(post.last() == packages@[i as int]@);
            let ghost f0 = f;
            match self.cache.get_after(packages[i].as_str(), ages[i]) {
                Some(_) => {
                    cached.push(packages[i].clone());
                    proof {
                        f = f.push(true);
                    }
                    assert(strings_view(cached@) =~= strings_view(cached@).drop_last().push(packages@[i as int]@));
                },
                None => {
                    missing.push(packages[i].clone());
                    proof {
                        f = f.push(false);
                    }
                    assert(strings_view(missing@) =~= strings_view(missing@).drop_last().push(packages@[i as int]@));
                },
            }
            proof {
                assert(f.drop_last() =~= f0);
                assert(post.len() == f.len());
                assert(pick(post, f, true) == (if f.last() == true {
                    pick(pre, f0, true).push(post.last())
                } else {
                    pick(pre, f0, true)
                }));
                assert(pick(post, f, false) == (if f.last() == false {
                    pick(pre, f0, false).push(post.last())
                } else {
                    pick(pre, f0, false)
                }));
            }
            i = i + 1;
        }
        assert(packages@.subrange(0, packages.len() as int) =~= packages@);
        assert(f =~= self.live_flags(packages@, ages@));
        let url = if missing.len() > 0 {
            let mut u = self.prepare_rpc_url();
            u.append("&type=info");
            push_url_args(&mut u, "&arg[]=", &missing);
            Some(u)
        } else {
            None
        };
        InfoRequest { cached, missing, url }
    }

    /// Plans the lookup of `packages`: `info_request_after` with the time
    /// each name's cache entry has been stored, which the clock gives. Each
    /// name goes, in order, either to the names the cache answers (it holds
    /// the package, unexpired) or to the names to fetch; a name whose entry
    /// never expires is always answered; the URL is that of a lookup of the
    /// names to fetch, and there is none when every name is answered.
    pub fn info_request(&self, packages: &Vec<String>) -> (r: InfoRequest)
        requires
            self.wf(),
        ensures
            exists|f: Seq<bool>|
                {
                    &&& f.len() == packages@.len()
                    &&& strings_view(r.cached@) == pick(strings_view(packages@), f, true)
                    &&& strings_view(r.missing@) == pick(strings_view(packages@), f, false)
                    &&& forall|i: int| 0 <= i < f.len() && #[trigger] f[i] ==> self.cached().contains_key(packages@[i]@)
                    &&& forall|i: int| 0 <= i < f.len() && self.never_expires(packages@[i]@) ==> #[trigger] f[i]
                },
            opt_string_view(r.url) == (if r.missing@.len() == 0 {
                None::<Seq<char>>
            } else {
                Some(info_url(self.base(), strings_view(r.missing@)))
            }),
    {
        let mut ages: Vec<u128> = Vec::new();
        let mut i: usize = 0;
        while i < packages.len()
            invariant
                self.wf(),
                i <= packages.len(),
                ages@.len() == i,
            decreases packages.len() - i,
        {
            ages.push(self.cache.age_of(packages[i].as_str()));
            i = i + 1;
        }
        let r = self.info_request_after(packages, &ages);
        let ghost f = self.live_flags(packages@, ages@);
        assert forall|i: int| 0 <= i < f.len() && #[trigger] f[i] implies self.cached().contains_key(packages@[i]@) by {
            assert(self.cache.read_at(packages@[i]@, ages@[i] as int) is Some);
        }
        assert forall|i: int| 0 <= i < f.len() && self.never_expires(packages@[i]@) implies #[trigger] f[i] by {
            assert(self.cache.read_at(packages@[i]@, ages@[i] as int) is Some);
        }
        r
    }

    /// Adds fetched packages to the cache, in order, and gives back their
    /// names.
    fn store_all(&mut self, results: Vec<Package>) -> (names: Vec<String>)
        requires
            old(self).wf(),
        ensures
            final(self).wf(),
            final(self).base() == old(self).base(),
            final(self).cached() == insert_all(old(self).cached(), results@),
            strings_view(names@) == results@.map_values(|p: Package| p.name@),
    {
        let ghost all = results@;
        assert(all.len() == results.len());
        let mut rest = results;
        let mut names: Vec<String> = Vec::new();
        let mut k: usize = 0;
        while rest.len() > 0
            invariant
                self.wf(),
                self.base() == old(self).base(),
                k <= all.len(),
                all.len() <= usize::MAX,
                rest@.len() == all.len() - k,
                rest@ == all.subrange(k as int, all.len() as int),
                self.cached() == insert_all(old(self).cached(), all.subrange(0, k as int)),
                strings_view(names@) == all.subrange(0, k as int).map_values(|p: Package| p.name@),
            decreases rest.len(),
        {
            let package = rest.remove(0);
            assert(package == all[k as int]);
            let name = package.name.clone();
            let ghost old_names = names@;
            names.push(package.name.clone());
            assert(names@.last()@ == all[k as int].name@);
            assert(strings_view(names@) =~= strings_view(old_names).push(all[k as int].name@));
            assert(all.subrange(0, k as int + 1).map_values(|p: Package| p.name@) =~= all.subrange(
                0,
                k as int,
            ).map_values(|p: Package| p.name@).push(all[k as int].name@));
            let _ = self.cache.add(name, package);
            proof {
                let done = all.subrange(0, k as int + 1);
                assert(done.drop_last() =~= all.subrange(0, k as int));
                assert(done.last() == all[k as int]);
            }
            assert(strings_view(names@) =~= all.subrange(0, k as int + 1).map_values(|p: Package| p.name@));
            k = k + 1;
            assert(rest@ =~= all.subrange(k as int, all.len() as int));
        }
        assert(all.subrange(0, k as int) =~= all);
        names
    }

    /// The cached packages stored under `names`, in order, each copied.
    fn collect_cached(&self, names: &Vec<String>) -> (r: Vec<Package>)
        requires
            self.wf(),
        ensures
            r@.map_values(|p: Package| p@) == collect(self.cached(), strings_view(names@)).map_values(
                |p: Package| p@,
            ),
    {
        let mut out: Vec<Package> = Vec::new();
        let mut i: usize = 0;
        while i < names.len()
            invariant
                self.wf(),
                i <= names.len(),
                out@.map_values(|p: Package| p@) == collect(
                    self.cached(),
                    strings_view(names@).subrange(0, i as int),
                ).map_values(|p: Package| p@),
            decreases names.len() - i,
        {
            let ghost post = strings_view(names@).subrange(0, i as int + 1);
            let ghost pre = strings_view(names@).subrange(0, i as int);
            proof {
                assert(post.drop_last() =~= pre);
                assert(post.last() == names@[i as int]@);
                assert(collect(self.cached(), post) == (if self.cached().contains_key(post.last()) {
                    collect(self.cached(), pre).push(self.cached()[post.last()])
                } else {
                    collect(self.cached(), pre)
                }));
            }
            match self.cache.peek(names[i].as_str()) {
                Some(p) => {
                    let ghost oo = out@;
                    out.push(p.duplicate());
                    assert(out@.map_values(|p: Package| p@) =~= oo.map_values(|p: Package| p@).push(
                        self.cached()[post.last()]@,
                    ));
                    assert(out@.map_values(|p: Package| p@) =~= collect(
                        self.cached(),
                        strings_view(names@).subrange(0, i as int + 1),
                    ).map_values(|p: Package| p@));
                },
                None => {},
            }
            i = i + 1;
        }
        assert(strings_view(names@).subrange(0, names.len() as int) =~= strings_view(names@));
        out
    }

    /// Completes a lookup planned by `info_request`, given what was fetched
    /// from its URL (`None` when nothing was fetched). A failed transfer or
    /// a response that `check_response` rejects is the error and leaves the
    /// cache as it was. Otherwise the fetched packages are cached in order,
    /// and the result is the cached package of each name the cache answered
    /// and then of each fetched package, in that order.
    pub fn info_results(
        &mut self,
        request: &InfoRequest,
        fetched: Option<Result<Response, AurError>>,
    ) -> (r: Result<Vec<Package>, AurError>)
        requires
            old(self).wf(),
        ensures
            final(self).wf(),
            final(self).base() == old(self).base(),
            fetched matches Some(Err(e)) ==> r == Err::<Vec<Package>, AurError>(e)
                && final(self).cached() == old(self).cached(),
            fetched matches Some(Ok(resp)) ==> (resp.version != AUR_VERSION ==> (r matches Err(
                AurError::InvalidResponse(m),
            ) && m@ == "mismatched versions"@ && final(self).cached() == old(self).cached())),
            fetched matches Some(Ok(resp)) ==> (resp.version == AUR_VERSION && resp.error is Some
                ==> r == Err::<Vec<Package>, AurError>(AurError::Query(resp.error.unwrap()))
                && final(self).cached() == old(self).cached()),
            fetched matches Some(Ok(resp)) ==> (resp.version == AUR_VERSION && resp.error is None
                ==> final(self).cached() == insert_all(old(self).cached(), resp.results@) && (r
                matches Ok(v) && v@.map_values(|p: Package| p@) == collect(
                final(self).cached(),
                strings_view(request.cached@) + resp.results@.map_values(|p: Package| p.name@),
            ).map_values(|p: Package| p@))),
            fetched is None ==> final(self).cached() == old(self).cached() && (r matches Ok(v)
                && v@.map_values(|p: Package| p@) == collect(
                old(self).cached(),
                strings_view(request.cached@),
            ).map_values(|p: Package| p@)),
    {
        let mut names = copy_strings(&request.cached);
        match fetched {
            None => {},
            Some(Err(e)) => {
                return Err(e);
            },
            Some(Ok(resp)) => {
                match Aur::check_response(resp) {
                    Err(e) => {
                        return Err(e);
                    },
                    Ok(resp) => {
                        let ghost pre = names@;
                        let mut fetched_names = self.store_all(resp.results);
                        let ghost fv = fetched_names@;
                        names.append(&mut fetched_names);
                        assert(strings_view(names@) =~= strings_view(pre) + strings_view(fv));
                    },
                }
            },
        }
        Ok(self.collect_cached(&names))
    }

    /// Judges a response: a response of another interface version is
    /// invalid, one that carries an error is a failed query.
    pub fn check_response(response: Response) -> (r: Result<Response, AurError>)
        ensures
            response.version != AUR_VERSION ==> (r matches Err(AurError::InvalidResponse(m)) && m@
                == "mismatched versions"@),
            response.version == AUR_VERSION && response.error is Some ==> r
                == Err::<Response, AurError>(AurError::Query(response.error.unwrap())),
            response.version == AUR_VERSION && response.error is None ==> r == Ok::<
                Response,
                AurError,
            >(response),
    {
        if response.version != AUR_VERSION {
            return Err(AurError::InvalidResponse("mismatched versions".to_owned()));
        }
        match response.error {
            Some(err) => Err(AurError::Query(err)),
            None => Ok(response),
        }
    }
}

} // verus!
