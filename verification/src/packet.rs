use vstd::prelude::*;
use vstd::string::StringExecFns;

verus! {

/// One JSON-RPC request, already encoded: the method name, the only field the
/// size estimator inspects, and the encoded request body, its wire form.
#[derive(Clone, Debug)]
pub struct SerializedRequest {
    pub method: String,
    pub body: String,
}

/// A single request or an ordered batch of requests. Batch order is
/// significant for the responses; the size estimate is a sum and does not
/// depend on it.
#[derive(Clone, Debug)]
pub enum RequestPacket {
    Single(SerializedRequest),
    Batch(Vec<SerializedRequest>),
}

/// The wire form of a batch's members: the encoded bodies in order, separated
/// by commas.
pub open spec fn spec_joined_bodies(rs: Seq<SerializedRequest>) -> Seq<char>
    decreases rs.len(),
{
    if rs.len() == 0 {
        Seq::empty()
    } else if rs.len() == 1 {
        rs[0].body@
    } else {
        spec_joined_bodies(rs.drop_last()) + ","@ + rs.last().body@
    }
}

/// The wire form of a packet: a single request is sent as its body alone, a
/// batch as a JSON array holding the bodies in order.
pub open spec fn spec_wire_form(p: RequestPacket) -> Seq<char> {
    match p {
        RequestPacket::Single(r) => r.body@,
        RequestPacket::Batch(rs) => "["@ + spec_joined_bodies(rs@) + "]"@,
    }
}

impl RequestPacket {
    /// Encode the packet into the one string handed to the call mechanism.
    pub fn serialize(&self) -> (s: String)
        ensures
            s@ == spec_wire_form(*self),
    {
        match self {
            RequestPacket::Single(r) => r.body.clone(),
            RequestPacket::Batch(rs) => {
                let mut out = String::from_str("[");
                let mut i: usize = 0;
                while i < rs.len()
                    invariant
                        i <= rs@.len(),
                        out@ == "["@ + spec_joined_bodies(rs@.take(i as int)),
                    decreases rs@.len() - i,
                {
                    if i > 0 {
                        out.append(",");
                    }
                    out.append(rs[i].body.as_str());
                    proof {
                        assert(rs@.take(i + 1) =~= rs@.take(i as int).push(rs@[i as int]));
                        assert(rs@.take(i + 1).drop_last() =~= rs@.take(i as int));
                        assert(out@ =~= "["@ + spec_joined_bodies(rs@.take(i + 1)));
                    }
                    i = i + 1;
                }
                out.append("]");
                proof {
                    assert(rs@.take(rs@.len() as int) =~= rs@);
                    assert(out@ =~= "["@ + spec_joined_bodies(rs@) + "]"@);
                }
                out
            },
        }
    }
}

} // verus!
