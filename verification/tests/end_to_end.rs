use std::collections::HashMap;

use fastdl_mirror::classify::CrawlPolicy;
use fastdl_mirror::crawler::start_crawl;
use fastdl_mirror::urls::{reference_targets, resolve_base_url, wave_page_url};

// A three-level synthetic listing tree: the root lists two subdirectories,
// each holding one content file; one branch uses the content-directory
// convention, the other the mirror-subtree convention. Fetching is played by
// a table from page URL to page text; the probe that canonicalizes each
// reference is played by parsing the resolved URL.
#[test]
fn three_level_tree_yields_two_downloads_and_three_visits() {
    let root_url = "https://host.example/cstrike/sound/";
    let mut pages: HashMap<String, String> = HashMap::new();
    pages.insert(
        "https://host.example/cstrike/sound/".to_string(),
        "<html><body>\
         <a href=\"../\">parent</a>\
         <a href=\"alpha/\">alpha</a>\
         <a href=\"beta/\">beta</a>\
         </body></html>"
            .to_string(),
    );
    pages.insert(
        "https://host.example/cstrike/sound/alpha/".to_string(),
        "<html><body>\
         <a href=\"../\">parent</a>\
         <a href=\"maps/ze_tune.wav\">tune</a>\
         </body></html>"
            .to_string(),
    );
    pages.insert(
        "https://host.example/cstrike/sound/beta/".to_string(),
        "<html><body>\
         <a href=\"../\">parent</a>\
         <a href=\"gflfastdlv2/chord.wav\">chord</a>\
         </body></html>"
            .to_string(),
    );

    let mut state = start_crawl(CrawlPolicy::standard(), root_url).unwrap();
    let root_doc = pages.get(root_url).unwrap().clone();
    let base = resolve_base_url(root_url, &root_doc).unwrap();
    assert_eq!(base.as_str(), "https://host.example");

    let mut pages_fetched = 0;
    while !state.frontier_is_empty() {
        let wave = state.take_wave();
        for path in wave {
            if !state.begin_path(&path) {
                continue;
            }
            let page_url = wave_page_url(&base, &path).unwrap();
            let doc = pages.get(&page_url).expect("listing page exists").clone();
            pages_fetched += 1;
            for target in reference_targets(&page_url, &doc).unwrap() {
                let probed = url::Url::parse(&target).unwrap();
                state.consider_link(
                    probed.scheme(),
                    probed.host_str().unwrap(),
                    probed.path(),
                );
            }
        }
    }

    assert_eq!(pages_fetched, 3);
    assert_eq!(state.download_count(), 2);
    let urls: Vec<String> = state.downloads().iter().map(|l| l.url()).collect();
    assert!(urls.contains(&"https://host.example/cstrike/sound/alpha/maps/ze_tune.wav".to_string()));
    assert!(urls.contains(&"https://host.example/cstrike/sound/beta/gflfastdlv2/chord.wav".to_string()));
}
