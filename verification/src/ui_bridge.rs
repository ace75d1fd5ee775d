//! The command bridge: decodes one inbound payload from the UI surface,
//! routes it, and produces exactly one response envelope, serialized here
//! so its exact text is pinned by the contracts. A payload that is not a
//! JSON object holding a string `cmd` is echoed back as a success, for
//! compatibility with unstructured messages; an unrecognized command is
//! answered with an error envelope that still echoes the payload.
use crate::json_text::{append_centi, append_quoted, append_u64, centi_str, dec_str, quoted};
use crate::providers::{
    CoreInfo, CpuInfo, DiskInfo, MemoryInfo, NetworkInfo, SystemInfo, SystemInfoV, SystemProvider,
};
use vstd::prelude::*;

verus! {

/// One per-core record on the wire.
pub open spec fn core_json(c: CoreInfo) -> Seq<char> {
    "{\"id\":"@ + dec_str(c.id as nat) + ",\"usage_percent\":"@ + centi_str(
        c.usage_centipercent as nat,
    ) + "}"@
}

/// The comma-joined per-core records.
pub open spec fn cores_json(cs: Seq<CoreInfo>) -> Seq<char>
    decreases cs.len(),
{
    if cs.len() == 0 {
        Seq::<char>::empty()
    } else if cs.len() == 1 {
        core_json(cs[0])
    } else {
        cores_json(cs.drop_last()) + ","@ + core_json(cs.last())
    }
}

/// The processor object on the wire.
pub open spec fn cpu_json(cores: Seq<CoreInfo>, overall: int) -> Seq<char> {
    "{\"usage_percent\":"@ + centi_str(overall as nat) + ",\"cores\":["@ + cores_json(cores)
        + "]}"@
}

/// The memory object on the wire.
pub open spec fn memory_json(m: MemoryInfo) -> Seq<char> {
    "{\"total_bytes\":"@ + dec_str(m.total_bytes as nat) + ",\"used_bytes\":"@ + dec_str(
        m.used_bytes as nat,
    ) + ",\"available_bytes\":"@ + dec_str(m.available_bytes as nat) + ",\"usage_percent\":"@
        + centi_str(m.usage_centipercent as nat) + "}"@
}

/// One disk object on the wire.
pub open spec fn disk_json(d: DiskInfo) -> Seq<char> {
    "{\"name\":"@ + quoted(d.name@) + ",\"mount_point\":"@ + quoted(d.mount_point@)
        + ",\"total_bytes\":"@ + dec_str(d.total_bytes as nat) + ",\"used_bytes\":"@ + dec_str(
        d.used_bytes as nat,
    ) + ",\"available_bytes\":"@ + dec_str(d.available_bytes as nat) + ",\"usage_percent\":"@
        + centi_str(d.usage_centipercent as nat) + "}"@
}

/// The comma-joined disk objects.
pub open spec fn disks_json(ds: Seq<DiskInfo>) -> Seq<char>
    decreases ds.len(),
{
    if ds.len() == 0 {
        Seq::<char>::empty()
    } else if ds.len() == 1 {
        disk_json(ds[0])
    } else {
        disks_json(ds.drop_last()) + ","@ + disk_json(ds.last())
    }
}

/// One interface object on the wire.
pub open spec fn network_json(n: NetworkInfo) -> Seq<char> {
    "{\"interface\":"@ + quoted(n.interface@) + ",\"received_bytes\":"@ + dec_str(
        n.received_bytes as nat,
    ) + ",\"transmitted_bytes\":"@ + dec_str(n.transmitted_bytes as nat) + "}"@
}

/// The comma-joined interface objects.
pub open spec fn networks_json(ns: Seq<NetworkInfo>) -> Seq<char>
    decreases ns.len(),
{
    if ns.len() == 0 {
        Seq::<char>::empty()
    } else if ns.len() == 1 {
        network_json(ns[0])
    } else {
        networks_json(ns.drop_last()) + ","@ + network_json(ns.last())
    }
}

/// The whole snapshot on the wire.
pub open spec fn system_info_json(v: SystemInfoV) -> Seq<char> {
    "{\"cpu\":"@ + cpu_json(v.cores, v.usage_centipercent) + ",\"memory\":"@ + memory_json(
        v.memory,
    ) + ",\"disks\":["@ + disks_json(v.disks) + "],\"network\":["@ + networks_json(v.network)
        + "]}"@
}

/// The success envelope for an echoed payload.
pub open spec fn echo_json(payload: Seq<char>) -> Seq<char> {
    "{\"ok\":true,\"echo\":"@ + quoted(payload) + "}"@
}

/// The error envelope for an unrecognized command.
pub open spec fn unknown_json(payload: Seq<char>) -> Seq<char> {
    "{\"ok\":false,\"error\":\"unknown command\",\"echo\":"@ + quoted(payload) + "}"@
}

/// The comma-joined workspace names, each a JSON string.
pub open spec fn names_json(names: Seq<Seq<char>>) -> Seq<char>
    decreases names.len(),
{
    if names.len() == 0 {
        Seq::<char>::empty()
    } else if names.len() == 1 {
        quoted(names[0])
    } else {
        names_json(names.drop_last()) + ","@ + quoted(names.last())
    }
}

/// The success envelope for a workspace list.
pub open spec fn workspaces_ok_json(names: Seq<Seq<char>>) -> Seq<char> {
    "{\"ok\":true,\"cmd\":\"workspaces\",\"data\":["@ + names_json(names) + "]}"@
}

/// The error envelope for a failed workspace fetch.
pub open spec fn workspaces_err_json(msg: Seq<char>) -> Seq<char> {
    "{\"ok\":false,\"cmd\":\"workspaces\",\"error\":"@ + quoted(msg) + "}"@
}

/// The success envelope around a snapshot.
pub open spec fn system_info_ok_json(v: SystemInfoV) -> Seq<char> {
    "{\"ok\":true,\"cmd\":\"system_info\",\"data\":"@ + system_info_json(v) + "}"@
}

/// The error envelope for an unreadable snapshot.
pub open spec fn system_info_err_json() -> Seq<char> {
    "{\"ok\":false,\"cmd\":\"system_info\",\"error\":\"Failed to get system info\"}"@
}

fn append_core(out: &mut String, c: &CoreInfo)
    ensures
        final(out)@ == old(out)@ + core_json(*c),
{
    out.append("{\"id\":");
    append_u64(out, c.id as u64);
    out.append(",\"usage_percent\":");
    append_centi(out, c.usage_centipercent);
    out.append("}");
    proof {
        assert(out@ =~= old(out)@ + core_json(*c));
    }
}

fn append_cores(out: &mut String, cs: &Vec<CoreInfo>)
    ensures
        final(out)@ == old(out)@ + cores_json(cs@),
{
    let n = cs.len();
    let mut i: usize = 0;
    proof {
        assert(out@ =~= old(out)@ + cores_json(cs@.take(0)));
    }
    while i < n
        invariant
            n == cs@.len(),
            i <= n,
            out@ == old(out)@ + cores_json(cs@.take(i as int)),
        decreases n - i,
    {
        if i > 0 {
            out.append(",");
        }
        append_core(out, &cs[i]);
        proof {
            assert(cs@.take(i + 1).drop_last() =~= cs@.take(i as int));
            assert(cs@.take(i + 1).last() == cs@[i as int]);
            assert(out@ =~= old(out)@ + cores_json(cs@.take(i + 1)));
        }
        i = i + 1;
    }
    proof {
        assert(cs@.take(n as int) =~= cs@);
    }
}

fn append_memory(out: &mut String, m: &MemoryInfo)
    ensures
        final(out)@ == old(out)@ + memory_json(*m),
{
    out.append("{\"total_bytes\":");
    append_u64(out, m.total_bytes);
    out.append(",\"used_bytes\":");
    append_u64(out, m.used_bytes);
    out.append(",\"available_bytes\":");
    append_u64(out, m.available_bytes);
    out.append(",\"usage_percent\":");
    append_centi(out, m.usage_centipercent);
    out.append("}");
    proof {
        assert(out@ =~= old(out)@ + memory_json(*m));
    }
}

fn append_disk(out: &mut String, d: &DiskInfo)
    ensures
        final(out)@ == old(out)@ + disk_json(*d),
{
    out.append("{\"name\":");
    append_quoted(out, d.name.as_str());
    out.append(",\"mount_point\":");
    append_quoted(out, d.mount_point.as_str());
    out.append(",\"total_bytes\":");
    append_u64(out, d.total_bytes);
    out.append(",\"used_bytes\":");
    append_u64(out, d.used_bytes);
    out.append(",\"available_bytes\":");
    append_u64(out, d.available_bytes);
    out.append(",\"usage_percent\":");
    append_centi(out, d.usage_centipercent);
    out.append("}");
    proof {
        assert(out@ =~= old(out)@ + disk_json(*d));
    }
}

fn append_disks(out: &mut String, ds: &Vec<DiskInfo>)
    ensures
        final(out)@ == old(out)@ + disks_json(ds@),
{
    let n = ds.len();
    let mut i: usize = 0;
    proof {
        assert(out@ =~= old(out)@ + disks_json(ds@.take(0)));
    }
    while i < n
        invariant
            n == ds@.len(),
            i <= n,
            out@ == old(out)@ + disks_json(ds@.take(i as int)),
        decreases n - i,
    {
        if i > 0 {
            out.append(",");
        }
        append_disk(out, &ds[i]);
        proof {
            assert(ds@.take(i + 1).drop_last() =~= ds@.take(i as int));
            assert(ds@.take(i + 1).last() == ds@[i as int]);
            assert(out@ =~= old(out)@ + disks_json(ds@.take(i + 1)));
        }
        i = i + 1;
    }
    proof {
        assert(ds@.take(n as int) =~= ds@);
    }
}

fn append_network(out: &mut String, n: &NetworkInfo)
    ensures
        final(out)@ == old(out)@ + network_json(*n),
{
    out.append("{\"interface\":");
    append_quoted(out, n.interface.as_str());
    out.append(",\"received_bytes\":");
    append_u64(out, n.received_bytes);
    out.append(",\"transmitted_bytes\":");
    append_u64(out, n.transmitted_bytes);
    out.append("}");
    proof {
        assert(out@ =~= old(out)@ + network_json(*n));
    }
}

fn append_networks(out: &mut String, ns: &Vec<NetworkInfo>)
    ensures
        final(out)@ == old(out)@ + networks_json(ns@),
{
    let n = ns.len();
    let mut i: usize = 0;
    proof {
        assert(out@ =~= old(out)@ + networks_json(ns@.take(0)));
    }
    while i < n
        invariant
            n == ns@.len(),
            i <= n,
            out@ == old(out)@ + networks_json(ns@.take(i as int)),
        decreases n - i,
    {
        if i > 0 {
            out.append(",");
        }
        append_network(out, &ns[i]);
        proof {
            assert(ns@.take(i + 1).drop_last() =~= ns@.take(i as int));
            assert(ns@.take(i + 1).last() == ns@[i as int]);
            assert(out@ =~= old(out)@ + networks_json(ns@.take(i + 1)));
        }
        i = i + 1;
    }
    proof {
        assert(ns@.take(n as int) =~= ns@);
    }
}

fn append_cpu(out: &mut String, c: &CpuInfo)
    ensures
        final(out)@ == old(out)@ + cpu_json(c.cores@, c.usage_centipercent as int),
{
    out.append("{\"usage_percent\":");
    append_centi(out, c.usage_centipercent);
    out.append(",\"cores\":[");
    append_cores(out, &c.cores);
    out.append("]}");
    proof {
        assert(out@ =~= old(out)@ + cpu_json(c.cores@, c.usage_centipercent as int));
    }
}

/// Serializes one snapshot to its wire form.
pub fn system_info_to_json(info: &SystemInfo) -> (r: String)
    ensures
        r@ == system_info_json(info@),
{
    let mut out = String::new();
    out.append("{\"cpu\":");
    append_cpu(&mut out, &info.cpu);
    out.append(",\"memory\":");
    append_memory(&mut out, &info.memory);
    out.append(",\"disks\":[");
    append_disks(&mut out, &info.disks);
    out.append("],\"network\":[");
    append_networks(&mut out, &info.network);
    out.append("]}");
    proof {
        assert(out@ =~= system_info_json(info@));
    }
    out
}

/// Builds the success envelope around a snapshot.
pub fn system_info_response(info: &SystemInfo) -> (r: String)
    ensures
        r@ == system_info_ok_json(info@),
{
    let mut out = String::new();
    out.append("{\"ok\":true,\"cmd\":\"system_info\",\"data\":");
    let data = system_info_to_json(info);
    out.append(data.as_str());
    out.append("}");
    proof {
        assert(out@ =~= system_info_ok_json(info@));
    }
    out
}

/// Builds the error envelope for an unreadable snapshot.
pub fn system_info_error_response() -> (r: String)
    ensures
        r@ == system_info_err_json(),
{
    let mut out = String::new();
    out.append("{\"ok\":false,\"cmd\":\"system_info\",\"error\":\"Failed to get system info\"}");
    proof {
        assert(out@ =~= system_info_err_json());
    }
    out
}

/// Builds the success envelope that echoes a payload back.
pub fn echo_response(payload: &str) -> (r: String)
    ensures
        r@ == echo_json(payload@),
{
    let mut out = String::new();
    out.append("{\"ok\":true,\"echo\":");
    append_quoted(&mut out, payload);
    out.append("}");
    proof {
        assert(out@ =~= echo_json(payload@));
    }
    out
}

/// Builds the error envelope for an unrecognized command.
pub fn unknown_response(payload: &str) -> (r: String)
    ensures
        r@ == unknown_json(payload@),
{
    let mut out = String::new();
    out.append("{\"ok\":false,\"error\":\"unknown command\",\"echo\":");
    append_quoted(&mut out, payload);
    out.append("}");
    proof {
        assert(out@ =~= unknown_json(payload@));
    }
    out
}

/// Builds the envelope for a workspace fetch outcome: a success lists the
/// names, a failure carries the fetch error's description.
pub fn workspaces_response(result: &Result<Vec<String>, String>) -> (r: String)
    ensures
        match result {
            Ok(names) => r@ == workspaces_ok_json(names.deep_view()),
            Err(msg) => r@ == workspaces_err_json(msg@),
        },
{
    match result {
        Ok(names) => {
            let mut out = String::new();
            out.append("{\"ok\":true,\"cmd\":\"workspaces\",\"data\":[");
            let ghost nv = names.deep_view();
            let n = names.len();
            let mut i: usize = 0;
            proof {
                assert(nv.len() == n);
                assert(out@ =~= "{\"ok\":true,\"cmd\":\"workspaces\",\"data\":["@ + names_json(
                    nv.take(0),
                ));
            }
            while i < n
                invariant
                    n == names@.len(),
                    nv == names.deep_view(),
                    nv.len() == n,
                    i <= n,
                    out@ == "{\"ok\":true,\"cmd\":\"workspaces\",\"data\":["@ + names_json(
                        nv.take(i as int),
                    ),
                decreases n - i,
            {
                if i > 0 {
                    out.append(",");
                }
                append_quoted(&mut out, names[i].as_str());
                proof {
                    assert(nv[i as int] == names@[i as int]@);
                    assert(nv.take(i + 1).drop_last() =~= nv.take(i as int));
                    assert(nv.take(i + 1).last() == nv[i as int]);
                    assert(out@ =~= "{\"ok\":true,\"cmd\":\"workspaces\",\"data\":["@ + names_json(
                        nv.take(i + 1),
                    ));
                }
                i = i + 1;
            }
            out.append("]}");
            proof {
                assert(nv.take(n as int) =~= nv);
                assert(out@ =~= workspaces_ok_json(nv));
            }
            out
        },
        Err(msg) => {
            let mut out = String::new();
            out.append("{\"ok\":false,\"cmd\":\"workspaces\",\"error\":");
            append_quoted(&mut out, msg.as_str());
            out.append("}");
            proof {
                assert(out@ =~= workspaces_err_json(msg@));
            }
            out
        },
    }
}

/// Whether the payload parses as a JSON value with something at `key`,
/// whatever its type; a function of the two texts alone.
pub uninterp spec fn json_has_field(payload: Seq<char>, key: Seq<char>) -> bool;

/// What the string at `key` is when the payload parses as a JSON object
/// holding a string there; a function of the two texts alone.
pub uninterp spec fn json_str_field(payload: Seq<char>, key: Seq<char>) -> Option<Seq<char>>;

/// What looking a key up in a payload can yield. A missing key and an
/// unparsable payload are one case: both are answered with an echo; a key
/// that is present but does not hold a string is kept apart, because the
/// protocol rejects it as an unknown command.
pub enum FieldLookup {
    /// The payload does not parse as JSON, or nothing is at the key.
    Missing,
    /// Something is at the key, but it is not a string.
    NotText,
    /// The key holds this string.
    Text(String),
}

/// Relies on serde_json::from_str::<Value>, serde_json::Value::get and
/// serde_json::Value::as_str: tells apart an unparsable payload or absent
/// key (`get` yields nothing on non-objects too), a present value of some
/// other type, and a present string, which is handed out.
#[verifier::external_body]
fn json_text_field(payload: &str, key: &str) -> (r: FieldLookup)
    ensures
        match r {
            FieldLookup::Missing => !json_has_field(payload@, key@),
            FieldLookup::NotText => json_has_field(payload@, key@) && json_str_field(
                payload@,
                key@,
            ) is None,
            FieldLookup::Text(v) => json_has_field(payload@, key@) && json_str_field(
                payload@,
                key@,
            ) == Some(v@),
        },
{
    let parsed = serde_json::from_str::<serde_json::Value>(payload).ok();
    match parsed.as_ref().and_then(|v| v.get(key)) {
        None => FieldLookup::Missing,
        Some(f) => match f.as_str() {
            Some(s) => FieldLookup::Text(s.to_string()),
            None => FieldLookup::NotText,
        },
    }
}

/// Where one payload is routed.
#[derive(Clone, Copy, Debug, PartialEq, Eq, Structural)]
pub enum Route {
    /// No command found: echo the payload back as a success.
    Echo,
    /// The workspace-list command.
    Workspaces,
    /// The telemetry-snapshot command.
    SystemInfo,
    /// A command this protocol does not know.
    Unknown,
}

/// The routing rule over the decoded command: no command at all is an
/// echo; a present command that is not a string, or a string outside the
/// known set, is unknown.
pub open spec fn route_of(has_cmd: bool, cmd: Option<Seq<char>>) -> Route {
    if !has_cmd {
        Route::Echo
    } else {
        match cmd {
            Option::Some(c) => if c == "get_workspaces"@ {
                Route::Workspaces
            } else if c == "get_system_info"@ {
                Route::SystemInfo
            } else {
                Route::Unknown
            },
            Option::None => Route::Unknown,
        }
    }
}

/// Where a payload is routed.
pub open spec fn route_of_payload(payload: Seq<char>) -> Route {
    route_of(json_has_field(payload, "cmd"@), json_str_field(payload, "cmd"@))
}

/// Decodes one payload and routes it.
pub fn route_message(payload: &str) -> (r: Route)
    ensures
        r == route_of_payload(payload@),
{
    match json_text_field(payload, "cmd") {
        FieldLookup::Missing => Route::Echo,
        FieldLookup::NotText => Route::Unknown,
        FieldLookup::Text(c) => {
            let gw: String = "get_workspaces".to_owned();
            let gsi: String = "get_system_info".to_owned();
            if c == gw {
                Route::Workspaces
            } else if c == gsi {
                Route::SystemInfo
            } else {
                Route::Unknown
            }
        },
    }
}

/// A handled message either carries its response already, or asks the
/// embedding to fetch the workspace list first, the one step that must
/// happen asynchronously outside this bridge.
pub enum BridgeReply {
    /// The serialized response envelope, ready to deliver.
    Immediate(String),
    /// Fetch workspaces, normalize per backend, and answer with
    /// `workspaces_response`.
    NeedsWorkspaces,
}

/// Handles one inbound payload: every route but the workspace fetch is
/// answered immediately with the exact envelope the routing rule owes it.
pub fn handle_message(payload: &str, provider: &SystemProvider) -> (r: BridgeReply)
    ensures
        ({
            let route = route_of_payload(payload@);
            match r {
                BridgeReply::Immediate(resp) => {
                    &&& route != Route::Workspaces
                    &&& route == Route::Echo ==> resp@ == echo_json(payload@)
                    &&& route == Route::Unknown ==> resp@ == unknown_json(payload@)
                    &&& route == Route::SystemInfo ==> resp@ == system_info_ok_json(provider@)
                },
                BridgeReply::NeedsWorkspaces => route == Route::Workspaces,
            }
        }),
{
    match route_message(payload) {
        Route::Echo => BridgeReply::Immediate(echo_response(payload)),
        Route::Unknown => BridgeReply::Immediate(unknown_response(payload)),
        Route::Workspaces => BridgeReply::NeedsWorkspaces,
        Route::SystemInfo => match provider.get_info() {
            Some(info) => BridgeReply::Immediate(system_info_response(&info)),
            None => BridgeReply::Immediate(system_info_error_response()),
        },
    }
}

/// Law of read idempotence: two reads of the same provider with no refresh
/// in between describe the same snapshot, so their serialized responses
/// are identical byte for byte.
pub proof fn lemma_reads_serialize_identically(p: &SystemProvider, a: &SystemInfo, b: &SystemInfo)
    requires
        a@ == p@,
        b@ == p@,
    ensures
        system_info_ok_json(a@) == system_info_ok_json(b@),
{
}

} // verus!
