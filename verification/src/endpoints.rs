//! The addresses of a worker's own HTTP API, which the gateway calls: VM
//! creation and deletion, and the readiness report.
use vstd::prelude::*;
use vstd::string::*;

verus! {

/// `http://{ip}:3000{path}`: a path on the worker API at the given address.
pub open spec fn worker_url(ip: Seq<char>, path: Seq<char>) -> Seq<char> {
    "http://"@ + ip + ":3000"@ + path
}

/// The worker endpoint that creates VMs: `http://{ip}:3000/vm`.
pub fn create_vm_url(ip: &str) -> (url: String)
    ensures
        url@ == worker_url(ip@, "/vm"@),
{
    let mut url = String::from_str("http://");
    url.append(ip);
    url.append(":3000");
    url.append("/vm");
    url
}

/// The worker endpoint that deletes one VM: `http://{ip}:3000/vm/{vm_id}`.
pub fn delete_vm_url(ip: &str, vm_id: &str) -> (url: String)
    ensures
        url@ == worker_url(ip@, "/vm/"@ + vm_id@),
{
    let mut url = String::from_str("http://");
    url.append(ip);
    url.append(":3000");
    url.append("/vm/");
    url.append(vm_id);
    assert(url@ =~= worker_url(ip@, "/vm/"@ + vm_id@));
    url
}

/// The worker's readiness endpoint: `http://{ip}:3000/internal/ready`.
pub fn ready_url(ip: &str) -> (url: String)
    ensures
        url@ == worker_url(ip@, "/internal/ready"@),
{
    let mut url = String::from_str("http://");
    url.append(ip);
    url.append(":3000");
    url.append("/internal/ready");
    url
}

} // verus!
