//! The URL resolver: the two fixed service handles, the argument list of
//! the cluster query that looks a service's address up, and the composition
//! of `http://<ip>` from the extracted address.

use vstd::prelude::*;
use crate::ip::{spec_extracted_ip, extract_ip};

verus! {

/// A fixed in-cluster service: its namespace and its service name.
pub struct ServiceHandle {
    pub namespace: &'static str,
    pub name: &'static str,
}

/// The experiment-tracker service.
pub fn tracker_handle() -> (h: ServiceHandle)
    ensures
        h.namespace@ == "dss"@,
        h.name@ == "mlflow"@,
{
    ServiceHandle { namespace: "dss", name: "mlflow" }
}

/// The notebook service.
pub fn notebook_handle() -> (h: ServiceHandle)
    ensures
        h.namespace@ == "dss"@,
        h.name@ == "user-notebook-tensorflow"@,
{
    ServiceHandle { namespace: "dss", name: "user-notebook-tensorflow" }
}

/// The argument list of the cluster query that prints a service's
/// ClusterIP on stdout.
pub fn query_args(h: &ServiceHandle) -> (r: Vec<&'static str>)
    ensures
        r@.len() == 7,
        r@[0]@ == "get"@,
        r@[1]@ == "svc"@,
        r@[2]@ == "-n"@,
        r@[3] == h.namespace,
        r@[4]@ == "-o"@,
        r@[5]@ == "jsonpath={.spec.clusterIP}"@,
        r@[6] == h.name,
{
    let mut r: Vec<&'static str> = Vec::new();
    r.push("get");
    r.push("svc");
    r.push("-n");
    r.push(h.namespace);
    r.push("-o");
    r.push("jsonpath={.spec.clusterIP}");
    r.push(h.name);
    r
}

/// The bytes of `http://`.
pub open spec fn url_prefix() -> Seq<u8> {
    seq![104u8, 116u8, 116u8, 112u8, 58u8, 47u8, 47u8]
}

/// The URL composed for an extracted service address.
pub open spec fn spec_url_for(ip: Seq<u8>) -> Seq<u8> {
    url_prefix() + ip
}

/// Compose `http://<ip>`.
pub fn make_url(ip: &[u8]) -> (r: Vec<u8>)
    ensures
        r@ == spec_url_for(ip@),
{
    let mut r: Vec<u8> = Vec::new();
    r.push(104);
    r.push(116);
    r.push(116);
    r.push(112);
    r.push(58);
    r.push(47);
    r.push(47);
    assert(r@ =~= url_prefix());
    let mut i: usize = 0;
    while i < ip.len()
        invariant
            i <= ip.len(),
            r@ == url_prefix() + ip@.subrange(0, i as int),
        decreases ip.len() - i,
    {
        r.push(ip[i]);
        assert(r@ =~= url_prefix() + ip@.subrange(0, i + 1));
        i = i + 1;
    }
    assert(r@ =~= spec_url_for(ip@));
    r
}

/// URL shape: the composed URL always begins with `http://`, and when the
/// extracted address is non-empty the host part is non-empty and is that
/// address verbatim.
pub proof fn lemma_url_shape(ip: Seq<u8>)
    ensures
        spec_url_for(ip).len() == 7 + ip.len(),
        spec_url_for(ip).subrange(0, 7) == url_prefix(),
        spec_url_for(ip).subrange(7, spec_url_for(ip).len() as int) == ip,
        ip.len() > 0 ==> spec_url_for(ip).len() > 7,
{
    assert(spec_url_for(ip).subrange(0, 7) =~= url_prefix());
    assert(spec_url_for(ip).subrange(7, spec_url_for(ip).len() as int) =~= ip);
}

/// Why a service address could not be turned into a URL.
#[derive(Clone, Copy, PartialEq, Eq, Structural, Debug)]
pub enum ShellError {
    /// The external tool could not be spawned at all.
    ExecFailure,
    /// The query ran but printed nothing.
    EmptyOutput,
}

/// The compute half of the service-address query: from the query's captured
/// stdout to the service URL. Fails exactly when stdout is empty; otherwise
/// the URL is `http://` followed by the trimmed address.
pub fn resolve_service_url(stdout: &[u8]) -> (r: Result<Vec<u8>, ShellError>)
    ensures
        stdout@.len() == 0 ==> r == Result::<Vec<u8>, ShellError>::Err(ShellError::EmptyOutput),
        stdout@.len() > 0 ==> r is Ok && r->Ok_0@ == spec_url_for(spec_extracted_ip(stdout@)),
{
    if stdout.len() == 0 {
        Err(ShellError::EmptyOutput)
    } else {
        let ip = extract_ip(stdout);
        Ok(make_url(ip.as_slice()))
    }
}

} // verus!
