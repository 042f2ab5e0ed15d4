use std::time::{Duration, Instant};

use zeus::aur::cache::{Cache, CacheItem};
use zeus::aur::client::{Aur, AurError, Response, AUR_VERSION};
use zeus::aur::package::Package;
use zeus::aur::pkg::By;

fn response(version: usize, error: Option<&str>, names: &[&str]) -> Response {
    Response {
        count: names.len(),
        results: names.iter().map(|n| Package::named(n)).collect(),
        query_type: "info".to_string(),
        version,
        error: error.map(|e| e.to_string()),
    }
}

#[test]
fn urls_are_normalized() {
    let aur = Aur::new("  https://aur.archlinux.org/// ");
    assert_eq!(aur.get_url(), "https://aur.archlinux.org");
    let mut aur = Aur::new("http://aur.example.com");
    assert_eq!(aur.get_url(), "http://aur.example.com");
    aur.url("https://aur.archlinux.org");
    assert_eq!(aur.get_url(), "https://aur.archlinux.org");
    // trimming happens before the slashes are removed
    assert_eq!(Aur::new("a / ").get_url(), "a ");
}

#[test]
fn search_urls() {
    let aur = Aur::new("https://aur.archlinux.org/");
    let kws = vec!["pacman".to_string(), "helper".to_string()];
    assert_eq!(
        aur.search_request(By::Name, &kws),
        "https://aur.archlinux.org/rpc/?v=5&type=search&by=name&arg=pacman&arg=helper"
    );
    assert_eq!(
        aur.search_request(By::NameDesc, &Vec::new()),
        "https://aur.archlinux.org/rpc/?v=5&type=search&by=name-desc"
    );
}

#[test]
fn responses_are_judged() {
    match Aur::check_response(response(4, None, &[])) {
        Err(AurError::InvalidResponse(m)) => assert_eq!(m, "mismatched versions"),
        r => panic!("unexpected {:?}", r),
    }
    match Aur::check_response(response(AUR_VERSION, Some("Too many package results."), &[])) {
        Err(AurError::Query(m)) => assert_eq!(m, "Too many package results."),
        r => panic!("unexpected {:?}", r),
    }
    let ok = Aur::check_response(response(AUR_VERSION, None, &["zeus"])).unwrap();
    assert_eq!(ok.results[0].name, "zeus");
    let found = Aur::search_results(Ok(response(AUR_VERSION, None, &["pacman-git"]))).unwrap();
    assert_eq!(found.len(), 1);
    match Aur::search_results(Err(AurError::Request("timeout".to_string()))) {
        Err(AurError::Request(m)) => assert_eq!(m, "timeout"),
        r => panic!("unexpected {:?}", r),
    }
}

#[test]
fn lookups_go_through_the_cache() {
    let mut aur = Aur::new("https://aur.archlinux.org");
    let names = vec!["zeus".to_string(), "zeus-bin".to_string()];
    let req = aur.info_request(&names);
    assert!(req.cached.is_empty());
    assert_eq!(req.missing, names);
    assert_eq!(
        req.url.as_deref(),
        Some("https://aur.archlinux.org/rpc/?v=5&type=info&arg[]=zeus&arg[]=zeus-bin")
    );
    let fetched = response(AUR_VERSION, None, &["zeus", "zeus-bin"]);
    let pkgs = aur.info_results(&req, Some(Ok(fetched))).unwrap();
    assert_eq!(pkgs.len(), 2);
    assert!(pkgs.iter().all(|x| x.name == "zeus" || x.name == "zeus-bin"));

    // a second lookup is answered by the cache
    let names = vec!["zeus-bin".to_string(), "pacman".to_string()];
    let req = aur.info_request(&names);
    assert_eq!(req.cached, vec!["zeus-bin".to_string()]);
    assert_eq!(req.missing, vec!["pacman".to_string()]);
    let pkgs = aur.info_results(&req, Some(Ok(response(AUR_VERSION, None, &["pacman"])))).unwrap();
    let got: Vec<&str> = pkgs.iter().map(|p| p.name.as_str()).collect();
    assert_eq!(got, vec!["zeus-bin", "pacman"]);

    // everything cached: nothing to fetch
    let req = aur.info_request(&vec!["pacman".to_string()]);
    assert_eq!(req.url, None);
    let pkgs = aur.info_results(&req, None).unwrap();
    assert_eq!(pkgs[0].name, "pacman");
}

#[test]
fn failed_lookups_leave_the_cache_alone() {
    let mut aur = Aur::new("https://aur.archlinux.org");
    let req = aur.info_request(&vec!["zeus".to_string()]);
    assert!(aur.info_results(&req, Some(Ok(response(6, None, &["zeus"])))).is_err());
    assert!(aur.info_results(&req, Some(Err(AurError::Request("down".to_string())))).is_err());
    let again = aur.info_request(&vec!["zeus".to_string()]);
    assert_eq!(again.missing, vec!["zeus".to_string()]);
}

/// Lets `d` pass on the clock.
fn wait(d: Duration) {
    let start = Instant::now();
    while start.elapsed() <= d {}
}

#[test]
fn test_cache() {
    let mut cache = Cache::<String>::new(Duration::from_millis(100));

    // add new data
    assert_eq!(cache.add("test key".to_string(), "test value".to_string()), None);

    // retrieve added data
    assert_eq!(cache.get("test key"), Some(&"test value".to_string()));

    // wait for the data to expire
    wait(Duration::from_millis(200));

    // check if data has correctly expired
    assert_eq!(cache.get("test key"), None);

    // overwrite data and see if the old expired data is returned
    assert_eq!(cache.add("test key".to_string(), "test".to_string()), None);

    wait(Duration::from_millis(200));

    assert_eq!(cache.remove("test key"), None);
}

#[test]
fn cache_entries() {
    let mut cache = Cache::<String>::new(Duration::from_secs(3600));
    assert_eq!(cache.add("test key".to_string(), "test value".to_string()), None);
    assert_eq!(cache.get("test key"), Some(&"test value".to_string()));
    assert_eq!(cache.get("other"), None);
    assert_eq!(cache.add("test key".to_string(), "test".to_string()), Some("test value".to_string()));
    assert_eq!(cache.peek("test key"), Some(&"test".to_string()));
    assert_eq!(cache.remove("test key"), Some("test".to_string()));
    assert_eq!(cache.remove("test key"), None);
    assert_eq!(cache.peek("test key"), None);
}

#[test]
fn cache_item_expiry() {
    let item = CacheItem::new(7u32, Duration::from_secs(1));
    assert_eq!(item.get_after(1_000_000_000), Some(&7));
    assert_eq!(item.get_after(1_000_000_001), None);
    assert!(!item.expired_after(0));
    assert!(item.expired_after(2_000_000_000));
    assert_eq!(item.get(), Some(&7));
    assert!(!item.expired());
    assert_eq!(*item.peek(), 7);
    assert_eq!(item.remove(), Some(7));
}

#[test]
fn packages_copy_every_field() {
    let mut p = Package::named("zeus");
    p.depends = Some(vec!["docker".to_string()]);
    p.popularity = 1.5f32.to_bits();
    p.out_of_date = Some(10);
    let q = p.duplicate();
    assert_eq!(q.name, "zeus");
    assert_eq!(q.depends, Some(vec!["docker".to_string()]));
    assert_eq!(f32::from_bits(q.popularity), 1.5);
    assert_eq!(q.out_of_date, Some(10));
    assert_eq!(q.description, None);
}

#[test]
fn cache_reads_over_elapsed_time() {
    let mut cache = Cache::<String>::new(Duration::from_secs(10));
    assert_eq!(cache.add_after("k".to_string(), "v".to_string(), 0), None);
    assert_eq!(cache.get_after("k", 10_000_000_000), Some(&"v".to_string()));
    assert_eq!(cache.get_after("k", 10_000_000_001), None);
    assert_eq!(cache.get_after("other", 0), None);
    assert_eq!(cache.add_after("k".to_string(), "w".to_string(), 5), Some("v".to_string()));
    assert_eq!(cache.add_after("k".to_string(), "x".to_string(), 10_000_000_001), None);
    assert_eq!(cache.remove_after("k", 10_000_000_001), None);
    cache.add("k".to_string(), "y".to_string());
    assert_eq!(cache.remove_after("k", 3), Some("y".to_string()));
    assert_eq!(cache.peek("k"), None);
}

#[test]
fn cache_item_removal_over_elapsed_time() {
    let item = CacheItem::new(5u8, Duration::from_secs(1));
    assert_eq!(item.remove_after(1_000_000_001), None);
    let item = CacheItem::new(5u8, Duration::from_secs(1));
    assert_eq!(item.remove_after(1_000_000_000), Some(5));
}

#[test]
fn cache_keeps_live_values_until_the_time_to_live_passes() {
    let mut cache = Cache::<String>::new(Duration::from_secs(3600));
    assert_eq!(cache.add("k".to_string(), "v".to_string()), None);
    assert_eq!(cache.get("k"), Some(&"v".to_string()));
    assert_eq!(cache.add("k".to_string(), "w".to_string()), Some("v".to_string()));
    cache.set_ttl(Duration::from_millis(1));
    assert_eq!(cache.get("k"), Some(&"w".to_string()));
    assert_eq!(cache.remove("k"), Some("w".to_string()));
}

#[test]
fn lookups_split_by_the_age_of_cache_entries() {
    let mut aur = Aur::new("https://aur.example");
    let req = aur.info_request(&vec!["zeus".to_string()]);
    aur.info_results(&req, Some(Ok(response(AUR_VERSION, None, &["zeus"])))).unwrap();
    let names = vec!["zeus".to_string(), "pacman".to_string()];
    let live = aur.info_request_after(&names, &vec![300_000_000_000, 0]);
    assert_eq!(live.cached, vec!["zeus".to_string()]);
    assert_eq!(live.missing, vec!["pacman".to_string()]);
    assert_eq!(live.url.as_deref(), Some("https://aur.example/rpc/?v=5&type=info&arg[]=pacman"));
    let expired = aur.info_request_after(&names, &vec![300_000_000_001, 0]);
    assert!(expired.cached.is_empty());
    assert_eq!(expired.missing, names);
}
