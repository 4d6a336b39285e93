use dockyard::payload::{
    summarize_container, summarize_containers, summarize_image, summarize_images, ContainerRecord,
    ImageRecord, PortRecord,
};

fn record(names: Option<Vec<&str>>, ports: Option<Vec<Option<&str>>>) -> ContainerRecord {
    ContainerRecord {
        names: names.map(|ns| ns.into_iter().map(String::from).collect()),
        status: Some(String::from("Up 2 hours")),
        state: Some(String::from("running")),
        ports: ports.map(|ps| {
            ps.into_iter().map(|ip| PortRecord { host_ip: ip.map(String::from) }).collect()
        }),
    }
}

#[test]
fn no_names_reported_yields_absent_name() {
    let c = summarize_container(&record(None, None));
    assert_eq!(c.name, None);
}

#[test]
fn empty_name_list_yields_absent_name() {
    let c = summarize_container(&record(Some(vec![]), None));
    assert_eq!(c.name, None);
}

#[test]
fn leading_separator_stripped_exactly_once() {
    let c = summarize_container(&record(Some(vec!["/web"]), None));
    assert_eq!(c.name, Some(String::from("web")));
    let d = summarize_container(&record(Some(vec!["//db"]), None));
    assert_eq!(d.name, Some(String::from("/db")));
}

#[test]
fn name_without_separator_kept_verbatim() {
    let c = summarize_container(&record(Some(vec!["web"]), None));
    assert_eq!(c.name, Some(String::from("web")));
}

#[test]
fn only_first_name_is_used() {
    let c = summarize_container(&record(Some(vec!["/first", "/second"]), None));
    assert_eq!(c.name, Some(String::from("first")));
}

#[test]
fn status_and_state_pass_through_verbatim() {
    let c = summarize_container(&record(None, None));
    assert_eq!(c.status, Some(String::from("Up 2 hours")));
    assert_eq!(c.state, Some(String::from("running")));
    let bare = ContainerRecord { names: None, status: None, state: None, ports: None };
    let b = summarize_container(&bare);
    assert_eq!(b.status, None);
    assert_eq!(b.state, None);
}

#[test]
fn port_entries_without_host_ip_are_excluded() {
    let c = summarize_container(&record(
        None,
        Some(vec![None, Some("127.0.0.1"), None, Some("0.0.0.0")]),
    ));
    assert_eq!(c.ports, Some(vec![String::from("127.0.0.1"), String::from("0.0.0.0")]));
}

#[test]
fn no_mappings_reported_yields_absent_ports() {
    let c = summarize_container(&record(None, None));
    assert_eq!(c.ports, None);
}

#[test]
fn all_mappings_filtered_yields_present_empty_ports() {
    let c = summarize_container(&record(None, Some(vec![None, None])));
    assert_eq!(c.ports, Some(vec![]));
}

#[test]
fn untagged_image_yields_empty_repo_tag() {
    let im = summarize_image(&ImageRecord { repo_tags: vec![], size: 812 });
    assert_eq!(im.repo_tag, String::new());
    assert_eq!(im.size, 812);
}

#[test]
fn first_repo_tag_is_taken() {
    let im = summarize_image(&ImageRecord {
        repo_tags: vec![String::from("alpine:3.20"), String::from("alpine:latest")],
        size: 7_300_000,
    });
    assert_eq!(im.repo_tag, String::from("alpine:3.20"));
    assert_eq!(im.size, 7_300_000);
}

#[test]
fn container_list_order_is_preserved() {
    let recs = vec![
        record(Some(vec!["/a"]), None),
        record(Some(vec!["/b"]), None),
        record(Some(vec!["/c"]), None),
    ];
    let out = summarize_containers(&recs);
    assert_eq!(out.len(), 3);
    assert_eq!(out[0].name, Some(String::from("a")));
    assert_eq!(out[1].name, Some(String::from("b")));
    assert_eq!(out[2].name, Some(String::from("c")));
}

#[test]
fn image_list_order_is_preserved() {
    let recs = vec![
        ImageRecord { repo_tags: vec![String::from("x:1")], size: 1 },
        ImageRecord { repo_tags: vec![], size: 2 },
    ];
    let out = summarize_images(&recs);
    assert_eq!(out.len(), 2);
    assert_eq!(out[0].repo_tag, String::from("x:1"));
    assert_eq!(out[1].repo_tag, String::new());
    assert_eq!(out[1].size, 2);
}
