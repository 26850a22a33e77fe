//! Names, paths and addresses derived from a service identifier.
//!
//! Everything here is a pure function of its arguments: the same identifier
//! always gives the same container name and the same data directory, and
//! different identifiers never share one.

use crate::decimal::{
    append_decimal, decimal, lemma_decimal_injective, lemma_decimal_is_digits, lemma_decimal_len,
    to_decimal,
};
use vstd::prelude::*;
use vstd::string::*;

verus! {

/// Port on which the workload listens inside its container.
pub const CONTAINER_PORT: u16 = 3000;

/// Host address on which the published port is bound.
pub open spec fn spec_host_ip() -> Seq<char> {
    "0.0.0.0"@
}

/// Name of the container of workspace `service_id`.
pub open spec fn spec_container_name(service_id: u64) -> Seq<char> {
    "mcp-svc-"@ + decimal(service_id as nat)
}

/// Name of the container of project `service_id`.
pub open spec fn spec_project_container_name(service_id: Seq<char>) -> Seq<char> {
    "mcp-"@ + service_id
}

/// Address at which the service published on `port` of `domain` is reached.
pub open spec fn spec_sse_url(domain: Seq<char>, port: u16) -> Seq<char> {
    "http://"@ + domain + ":"@ + decimal(port as nat) + "/sse"@
}

/// Whether `text` names one entry of a directory: it is not empty, holds no
/// slash, and is neither `.` nor `..`.
pub open spec fn is_path_component(text: Seq<char>) -> bool {
    &&& text.len() > 0
    &&& forall|i: int| 0 <= i < text.len() ==> text[i] != '/'
    &&& text != seq!['.']
    &&& text != seq!['.', '.']
}

/// Directory under `root` that holds the data of the service whose
/// identifier is written `service_id`.
pub open spec fn spec_project_data_dir(root: Seq<char>, service_id: Seq<char>) -> Seq<char> {
    root + "/workspaces/"@ + service_id
}

/// Directory under `root` that holds the data of workspace `service_id`: the
/// directory of the service whose identifier is written in decimal.
pub open spec fn spec_workspace_data_dir(root: Seq<char>, service_id: u64) -> Seq<char> {
    spec_project_data_dir(root, decimal(service_id as nat))
}

/// Bind mount of `host_path`, read-write, at the fixed path inside the container.
pub open spec fn spec_workspace_bind(host_path: Seq<char>) -> Seq<char> {
    host_path + ":/blueprint:rw"@
}

/// Storage entry of a project container: the size in bytes.
pub open spec fn spec_storage_bind(storage_bytes: u64) -> Seq<char> {
    "size="@ + decimal(storage_bytes as nat)
}

/// Environment entry that tells the workload who owns it.
pub open spec fn spec_owner_env(owner_public_key: Seq<char>) -> Seq<char> {
    "OWNER_PUBLIC_KEY="@ + owner_public_key
}

/// Environment entry that tells the workload where to listen.
pub open spec fn spec_port_env() -> Seq<char> {
    "PORT="@ + decimal(CONTAINER_PORT as nat)
}

/// The container-side port of the published binding, as the runtime spells it.
pub open spec fn spec_container_port_key() -> Seq<char> {
    decimal(CONTAINER_PORT as nat) + "/tcp"@
}

/// `name` without the slashes it begins with.
pub open spec fn strip_leading_slashes(name: Seq<char>) -> Seq<char>
    decreases name.len(),
{
    if name.len() > 0 && name[0] == '/' {
        strip_leading_slashes(name.drop_first())
    } else {
        name
    }
}

/// Whether the runtime's `name`, which may carry a slash prefix, names `target`.
pub open spec fn spec_name_matches(name: Seq<char>, target: Seq<char>) -> bool {
    strip_leading_slashes(name) == target
}

pub fn host_ip() -> (text: String)
    ensures
        text@ == spec_host_ip(),
{
    String::from_str("0.0.0.0")
}

/// Name of the container of workspace `service_id`: a fixed prefix and the
/// identifier in decimal.
pub fn container_name(service_id: u64) -> (name: String)
    ensures
        name@ == spec_container_name(service_id),
{
    let mut name = String::from_str("mcp-svc-");
    append_decimal(&mut name, service_id);
    name
}

/// Name of the container of project `service_id`.
pub fn project_container_name(service_id: &str) -> (name: String)
    ensures
        name@ == spec_project_container_name(service_id@),
{
    let mut name = String::from_str("mcp-");
    name.append(service_id);
    name
}

/// Address of the event stream of the service published on `port` of `domain`.
pub fn get_sse_url(domain: &str, port: u16) -> (url: String)
    ensures
        url@ == spec_sse_url(domain@, port),
{
    let mut url = String::from_str("http://");
    url.append(domain);
    url.append(":");
    append_decimal(&mut url, port as u64);
    url.append("/sse");
    url
}

/// Directory under `root` that holds the data of workspace `service_id`.
pub fn workspace_data_dir(root: &str, service_id: u64) -> (path: String)
    ensures
        path@ == spec_workspace_data_dir(root@, service_id),
{
    let mut path = String::from_str(root);
    path.append("/workspaces/");
    append_decimal(&mut path, service_id);
    path
}

/// Whether `text` names one entry of a directory.
pub fn is_component(text: &str) -> (ok: bool)
    ensures
        ok == is_path_component(text@),
{
    let len: usize = text.unicode_len();
    if len == 0 {
        return false;
    }
    let mut i: usize = 0;
    while i < len
        invariant
            i <= len,
            len == text@.len(),
            forall|j: int| 0 <= j < i ==> text@[j] != '/',
        decreases len - i,
    {
        if text.get_char(i) == '/' {
            return false;
        }
        i = i + 1;
    }
    if len == 1 && text.get_char(0) == '.' {
        assert(text@ =~= seq!['.']);
        return false;
    }
    if len == 2 && text.get_char(0) == '.' && text.get_char(1) == '.' {
        assert(text@ =~= seq!['.', '.']);
        return false;
    }
    assert(text@ != seq!['.']) by {
        if text@ == seq!['.'] {
            assert(text@[0] == '.');
        }
    }
    assert(text@ != seq!['.', '.']) by {
        if text@ == seq!['.', '.'] {
            assert(text@[0] == '.');
            assert(text@[1] == '.');
        }
    }
    true
}

/// Directory under `root` that holds the data of project `service_id`, or
/// nothing where the identifier does not name one entry of a directory: such
/// an identifier has no directory of its own.
pub fn project_data_dir(root: &str, service_id: &str) -> (path: Option<String>)
    ensures
        match path {
            Some(path) => is_path_component(service_id@) && path@ == spec_project_data_dir(
                root@,
                service_id@,
            ),
            None => !is_path_component(service_id@),
        },
{
    if is_component(service_id) {
        let mut path = String::from_str(root);
        path.append("/workspaces/");
        path.append(service_id);
        Some(path)
    } else {
        None
    }
}

/// Bind mount of `host_path` into the container.
pub fn workspace_bind(host_path: &str) -> (bind: String)
    ensures
        bind@ == spec_workspace_bind(host_path@),
{
    let mut bind = String::from_str(host_path);
    bind.append(":/blueprint:rw");
    bind
}

/// Storage entry of a project container.
pub fn storage_bind(storage_bytes: u64) -> (bind: String)
    ensures
        bind@ == spec_storage_bind(storage_bytes),
{
    let mut bind = String::from_str("size=");
    append_decimal(&mut bind, storage_bytes);
    bind
}

/// Environment entry for the owner's public key.
pub fn owner_env(owner_public_key: &str) -> (entry: String)
    ensures
        entry@ == spec_owner_env(owner_public_key@),
{
    let mut entry = String::from_str("OWNER_PUBLIC_KEY=");
    entry.append(owner_public_key);
    entry
}

/// Environment entry for the port the workload listens on.
pub fn port_env() -> (entry: String)
    ensures
        entry@ == spec_port_env(),
{
    let mut entry = String::from_str("PORT=");
    append_decimal(&mut entry, CONTAINER_PORT as u64);
    entry
}

/// The container-side port of the published binding.
pub fn container_port_key() -> (key: String)
    ensures
        key@ == spec_container_port_key(),
{
    let mut key = to_decimal(CONTAINER_PORT as u64);
    key.append("/tcp");
    key
}

/// Stripping slashes from a text that starts with `count` of them is the same
/// as stripping them from what follows.
proof fn lemma_strip_skips(name: Seq<char>, count: int)
    requires
        0 <= count <= name.len(),
        forall|i: int| 0 <= i < count ==> name[i] == '/',
    ensures
        strip_leading_slashes(name) == strip_leading_slashes(name.skip(count)),
    decreases count,
{
    if count == 0 {
        assert(name.skip(0) =~= name);
    } else {
        let rest = name.drop_first();
        assert forall|i: int| 0 <= i < count - 1 implies rest[i] == '/' by {
            assert(rest[i] == name[i + 1]);
        }
        lemma_strip_skips(rest, count - 1);
        assert(rest.skip(count - 1) =~= name.skip(count));
    }
}

/// Whether the runtime's `name` names `target` once its leading slashes are
/// taken off.
pub fn name_matches(name: &str, target: &str) -> (matches: bool)
    ensures
        matches == spec_name_matches(name@, target@),
{
    let len: usize = name.unicode_len();
    let mut start: usize = 0;
    while start < len && name.get_char(start) == '/'
        invariant
            start <= len,
            len == name@.len(),
            forall|i: int| 0 <= i < start ==> name@[i] == '/',
        decreases len - start,
    {
        start = start + 1;
    }
    proof {
        lemma_strip_skips(name@, start as int);
    }
    let stripped = name.substring_char(start, len);
    assert(stripped@ =~= name@.skip(start as int));
    assert(strip_leading_slashes(stripped@) == stripped@);
    let owned = String::from_str(stripped);
    let wanted = String::from_str(target);
    owned == wanted
}

/// The text that follows a common prefix decides whether two texts are equal.
pub proof fn lemma_same_prefix_cancels(prefix: Seq<char>, a: Seq<char>, b: Seq<char>)
    requires
        prefix + a == prefix + b,
    ensures
        a == b,
{
    assert((prefix + a).skip(prefix.len() as int) =~= a);
    assert((prefix + b).skip(prefix.len() as int) =~= b);
}

/// Workspaces with different identifiers get different container names.
pub proof fn lemma_container_name_injective(a: u64, b: u64)
    requires
        spec_container_name(a) == spec_container_name(b),
    ensures
        a == b,
{
    lemma_same_prefix_cancels("mcp-svc-"@, decimal(a as nat), decimal(b as nat));
    lemma_decimal_injective(a as nat, b as nat);
}

/// Projects with different identifiers get different container names.
pub proof fn lemma_project_container_name_injective(a: Seq<char>, b: Seq<char>)
    requires
        spec_project_container_name(a) == spec_project_container_name(b),
    ensures
        a == b,
{
    lemma_same_prefix_cancels("mcp-"@, a, b);
}

/// Under one root, projects with different identifiers get different data
/// directories, and each lies below the directory of all services.
pub proof fn lemma_project_data_dir_injective(root: Seq<char>, a: Seq<char>, b: Seq<char>)
    requires
        spec_project_data_dir(root, a) == spec_project_data_dir(root, b),
    ensures
        a == b,
{
    lemma_same_prefix_cancels(root + "/workspaces/"@, a, b);
}

/// Under one root, workspaces with different identifiers get different data
/// directories.
pub proof fn lemma_workspace_data_dir_injective(root: Seq<char>, a: u64, b: u64)
    requires
        spec_workspace_data_dir(root, a) == spec_workspace_data_dir(root, b),
    ensures
        a == b,
{
    lemma_project_data_dir_injective(root, decimal(a as nat), decimal(b as nat));
    lemma_decimal_injective(a as nat, b as nat);
}

/// The decimal text of an identifier names one entry of a directory.
pub proof fn lemma_decimal_is_a_path_component(n: nat)
    ensures
        is_path_component(decimal(n)),
{
    lemma_decimal_len(n);
    let text = decimal(n);
    assert forall|i: int| 0 <= i < text.len() implies text[i] != '/' by {
        lemma_decimal_is_digits(n, i);
    }
    lemma_decimal_is_digits(n, 0);
    if text == seq!['.'] {
        assert(text[0] == '.');
    }
    if text == seq!['.', '.'] {
        assert(text[0] == '.');
    }
}

/// One subtree for each service: the data directory of an identifier that
/// names one entry is that entry of the directory of all services. It is the
/// common directory followed by the identifier, no slash follows the common
/// directory, and the entry is neither the directory itself nor its parent.
pub proof fn lemma_data_dir_is_an_entry_of_the_common_directory(
    root: Seq<char>,
    service_id: Seq<char>,
)
    requires
        is_path_component(service_id),
    ensures
        ({
            let common = root + "/workspaces/"@;
            let path = spec_project_data_dir(root, service_id);
            &&& path.len() > common.len()
            &&& path.subrange(0, common.len() as int) == common
            &&& path.subrange(common.len() as int, path.len() as int) == service_id
            &&& forall|i: int| common.len() <= i < path.len() ==> path[i] != '/'
            &&& service_id != seq!['.']
            &&& service_id != seq!['.', '.']
        }),
{
    let common = root + "/workspaces/"@;
    let path = spec_project_data_dir(root, service_id);
    assert(path.subrange(0, common.len() as int) =~= common);
    assert(path.subrange(common.len() as int, path.len() as int) =~= service_id);
    assert forall|i: int| common.len() <= i < path.len() implies path[i] != '/' by {
        assert(path[i] == service_id[i - common.len()]);
    }
}

/// The data directory of every workspace is an entry of the directory of all
/// services.
pub proof fn lemma_workspace_data_dir_is_an_entry(root: Seq<char>, service_id: u64)
    ensures
        is_path_component(decimal(service_id as nat)),
        spec_workspace_data_dir(root, service_id) == spec_project_data_dir(
            root,
            decimal(service_id as nat),
        ),
{
    lemma_decimal_is_a_path_component(service_id as nat);
}

} // verus!
