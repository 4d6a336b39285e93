//! Normalization of raw runtime records into the stable summary payloads
//! handed to the caller.

use vstd::prelude::*;
use vstd::string::*;

verus! {

/// What the normalizer reads of one port mapping reported by the runtime:
/// the bound host IP, which the runtime may omit.
pub struct PortRecord {
    pub host_ip: Option<String>,
}

/// What the normalizer reads of one raw container record reported by the
/// runtime's list call.
pub struct ContainerRecord {
    pub names: Option<Vec<String>>,
    pub status: Option<String>,
    pub state: Option<String>,
    pub ports: Option<Vec<PortRecord>>,
}

/// What the normalizer reads of one raw image record reported by the
/// runtime's list call.
pub struct ImageRecord {
    pub repo_tags: Vec<String>,
    pub size: i64,
}

/// The stable container summary delivered to the caller.
#[derive(Debug)]
pub struct Container {
    pub name: Option<String>,
    pub status: Option<String>,
    pub state: Option<String>,
    pub ports: Option<Vec<String>>,
}

/// The stable image summary delivered to the caller.
#[derive(Debug)]
pub struct Image {
    pub repo_tag: String,
    pub size: i64,
}

/// A name with its leading path separator, if any, stripped exactly once.
pub open spec fn stripped_name(raw: Seq<char>) -> Seq<char> {
    if raw.len() > 0 && raw[0] == '/' {
        raw.subrange(1, raw.len() as int)
    } else {
        raw
    }
}

/// The host IPs of the given port mappings, in order; entries that lack a
/// host IP are dropped.
pub open spec fn host_ips(ports: Seq<PortRecord>) -> Seq<String>
    decreases ports.len(),
{
    if ports.len() == 0 {
        Seq::empty()
    } else {
        host_ips(ports.drop_last()) + match ports.last().host_ip {
            Some(ip) => seq![ip],
            None => Seq::<String>::empty(),
        }
    }
}

/// How a container summary is derived from a raw record: the first reported
/// name, stripped of a leading path separator, or no name at all; status and
/// state verbatim; the host IPs of the reported port mappings, with `ports`
/// absent exactly when the runtime reported no mappings.
pub open spec fn is_container_summary(rec: ContainerRecord, c: Container) -> bool {
    &&& match rec.names {
        Some(ns) => if ns@.len() > 0 {
            c.name matches Some(n) && n@ == stripped_name(ns@[0]@)
        } else {
            c.name is None
        },
        None => c.name is None,
    }
    &&& c.status == rec.status
    &&& c.state == rec.state
    &&& match rec.ports {
        Some(ps) => c.ports matches Some(ips) && ips@ == host_ips(ps@),
        None => c.ports is None,
    }
}

/// How an image summary is derived from a raw record: the first reported
/// repo:tag, or the empty string for an untagged image; the size verbatim.
pub open spec fn is_image_summary(rec: ImageRecord, im: Image) -> bool {
    &&& if rec.repo_tags@.len() > 0 {
        im.repo_tag == rec.repo_tags@[0]
    } else {
        im.repo_tag@ == Seq::<char>::empty()
    }
    &&& im.size == rec.size
}

/// Strips one leading path separator from a reported container name.
pub fn strip_path_prefix(s: &String) -> (r: String)
    ensures
        r@ == stripped_name(s@),
{
    let n = s.as_str().unicode_len();
    if n > 0 && s.as_str().get_char(0) == '/' {
        s.as_str().substring_char(1, n).to_owned()
    } else {
        s.clone()
    }
}

/// Collects the host IPs of the reported port mappings, in order, dropping
/// entries that lack one.
pub fn collect_host_ips(ports: &Vec<PortRecord>) -> (out: Vec<String>)
    ensures
        out@ == host_ips(ports@),
{
    let mut out: Vec<String> = Vec::new();
    let mut i: usize = 0;
    while i < ports.len()
        invariant
            0 <= i <= ports@.len(),
            out@ == host_ips(ports@.take(i as int)),
        decreases ports@.len() - i,
    {
        match &ports[i].host_ip {
            Some(ip) => {
                out.push(ip.clone());
            },
            None => {},
        }
        i = i + 1;
        proof {
            assert(ports@.take(i as int).drop_last() =~= ports@.take(i - 1));
        }
    }
    proof {
        assert(ports@.take(ports@.len() as int) =~= ports@);
    }
    out
}

/// Maps one raw container record to its summary.
pub fn summarize_container(rec: &ContainerRecord) -> (c: Container)
    ensures
        is_container_summary(*rec, c),
{
    let name: Option<String> = match &rec.names {
        Some(ns) => {
            if ns.len() > 0 {
                Some(strip_path_prefix(&ns[0]))
            } else {
                None
            }
        },
        None => None,
    };
    let ports: Option<Vec<String>> = match &rec.ports {
        Some(ps) => Some(collect_host_ips(ps)),
        None => None,
    };
    Container { name, status: clone_optional(&rec.status), state: clone_optional(&rec.state), ports }
}

/// Maps one raw image record to its summary.
pub fn summarize_image(rec: &ImageRecord) -> (im: Image)
    ensures
        is_image_summary(*rec, im),
{
    let repo_tag: String = if rec.repo_tags.len() > 0 {
        rec.repo_tags[0].clone()
    } else {
        String::new()
    };
    Image { repo_tag, size: rec.size }
}

/// Maps a whole list of raw container records, keeping the runtime's order.
pub fn summarize_containers(recs: &Vec<ContainerRecord>) -> (out: Vec<Container>)
    ensures
        out@.len() == recs@.len(),
        forall|i: int| 0 <= i < recs@.len() ==> is_container_summary(recs@[i], #[trigger] out@[i]),
{
    let mut out: Vec<Container> = Vec::new();
    let mut i: usize = 0;
    while i < recs.len()
        invariant
            0 <= i <= recs@.len(),
            out@.len() == i,
            forall|k: int| 0 <= k < i ==> is_container_summary(recs@[k], #[trigger] out@[k]),
        decreases recs@.len() - i,
    {
        out.push(summarize_container(&recs[i]));
        i = i + 1;
    }
    out
}

/// Maps a whole list of raw image records, keeping the runtime's order.
pub fn summarize_images(recs: &Vec<ImageRecord>) -> (out: Vec<Image>)
    ensures
        out@.len() == recs@.len(),
        forall|i: int| 0 <= i < recs@.len() ==> is_image_summary(recs@[i], #[trigger] out@[i]),
{
    let mut out: Vec<Image> = Vec::new();
    let mut i: usize = 0;
    while i < recs.len()
        invariant
            0 <= i <= recs@.len(),
            out@.len() == i,
            forall|k: int| 0 <= k < i ==> is_image_summary(recs@[k], #[trigger] out@[k]),
        decreases recs@.len() - i,
    {
        out.push(summarize_image(&recs[i]));
        i = i + 1;
    }
    out
}

/// Law: a record that reports no names yields a summary whose `name` is
/// absent — never an empty string.
pub proof fn lemma_unnamed_record_has_no_name(rec: ContainerRecord, c: Container)
    requires
        is_container_summary(rec, c),
        rec.names matches Some(ns) ==> ns@.len() == 0,
    ensures
        c.name is None,
{
}

/// Law: when the first reported name begins with the path separator, the
/// summary's `name` is that name with the separator stripped exactly once.
pub proof fn lemma_name_separator_stripped_once(
    rec: ContainerRecord,
    c: Container,
    first: Seq<char>,
)
    requires
        is_container_summary(rec, c),
        rec.names matches Some(ns) && ns@.len() > 0 && ns@[0]@ == first,
        first.len() > 0,
        first[0] == '/',
    ensures
        c.name matches Some(n) && n@ == first.subrange(1, first.len() as int),
{
}

/// True when some reported mapping carries exactly this host IP.
pub open spec fn comes_from(ps: Seq<PortRecord>, ip: String) -> bool {
    exists|i: int| 0 <= i < ps.len() && #[trigger] ps[i].host_ip == Some(ip)
}

/// A port mapping that lacks a host IP contributes nothing: every collected
/// entry is the host IP of some reported mapping, so the collection never
/// grows past the source.
pub proof fn lemma_host_ips_sound(ps: Seq<PortRecord>)
    ensures
        host_ips(ps).len() <= ps.len(),
        forall|k: int| 0 <= k < host_ips(ps).len() ==> comes_from(ps, #[trigger] host_ips(ps)[k]),
    decreases ps.len(),
{
    if ps.len() > 0 {
        lemma_host_ips_sound(ps.drop_last());
        let prev = host_ips(ps.drop_last());
        assert forall|k: int| 0 <= k < host_ips(ps).len() implies comes_from(
            ps,
            #[trigger] host_ips(ps)[k],
        ) by {
            if k < prev.len() {
                let i0 = choose|i: int|
                    0 <= i < ps.drop_last().len() && #[trigger] ps.drop_last()[i].host_ip == Some(
                        prev[k],
                    );
                assert(ps[i0].host_ip == Some(host_ips(ps)[k]));
            } else {
                assert(host_ips(ps).len() > prev.len());
                assert(ps[ps.len() - 1].host_ip == Some(host_ips(ps)[k]));
            }
        }
    }
}

/// A reported list of mappings in which none carries a host IP collects to
/// nothing.
pub proof fn lemma_host_ips_all_missing(ps: Seq<PortRecord>)
    requires
        forall|i: int| 0 <= i < ps.len() ==> (#[trigger] ps[i].host_ip) is None,
    ensures
        host_ips(ps).len() == 0,
    decreases ps.len(),
{
    if ps.len() > 0 {
        lemma_host_ips_all_missing(ps.drop_last());
        assert(ps[ps.len() - 1].host_ip is None);
    }
}

/// Law: the summary's `ports` is present exactly when the runtime reported
/// mappings. Mappings lacking a host IP are excluded, and a reported list
/// whose entries are all excluded yields a present, empty `ports` — still
/// distinct from the absent `ports` of a record with no mappings reported.
pub proof fn lemma_ports_distinction_preserved(rec: ContainerRecord, c: Container)
    requires
        is_container_summary(rec, c),
    ensures
        (c.ports is Some) <==> (rec.ports is Some),
        rec.ports matches Some(ps) ==> (c.ports matches Some(ips) && ips@.len() <= ps@.len()
            && forall|k: int| 0 <= k < ips@.len() ==> comes_from(ps@, #[trigger] ips@[k])),
        rec.ports matches Some(ps) ==> ((forall|i: int|
            0 <= i < ps@.len() ==> (#[trigger] ps@[i].host_ip) is None) ==> (c.ports matches Some(
            ips,
        ) && ips@.len() == 0)),
{
    match rec.ports {
        Some(ps) => {
            lemma_host_ips_sound(ps@);
            if forall|i: int| 0 <= i < ps@.len() ==> (#[trigger] ps@[i].host_ip) is None {
                lemma_host_ips_all_missing(ps@);
            }
        },
        None => {},
    }
}

/// Law: an image record with no tags yields a `repo_tag` equal to the empty
/// string — never an absent value.
pub proof fn lemma_untagged_image_empty_repo_tag(rec: ImageRecord, im: Image)
    requires
        is_image_summary(rec, im),
        rec.repo_tags@.len() == 0,
    ensures
        im.repo_tag@.len() == 0,
        im.repo_tag@ == Seq::<char>::empty(),
{
}

/// Clones an optional string field through verbatim.
fn clone_optional(o: &Option<String>) -> (r: Option<String>)
    ensures
        r == *o,
{
    match o {
        Some(s) => Some(s.clone()),
        None => None,
    }
}

} // verus!
