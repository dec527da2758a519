use vstd::prelude::*;
use vstd::string::StringExecFns;

use crate::codec::{base64_decoded, decimal_string, decimal_text, obi_u64, Price};
use crate::error::{DecodeKind, FetchError};
use crate::records::{BandRequest, BandRequestJson, OracleScript};

verus! {

/// The gateway that a source talks to unless it is given another.
pub const BASE_URI: &'static str = "http://guanyu-devnet.bandchain.org/rest";

/// Where the oracle script with id `id` is described, below `base`.
pub open spec fn oracle_script_uri_text(base: Seq<char>, id: u64) -> Seq<char> {
    base + "/oracle/oracle_scripts/"@ + decimal_text(id as nat)
}

/// Where the resolved request for these parameters is found, below `base`.
pub open spec fn request_search_uri_text(
    base: Seq<char>,
    id: u64,
    calldata: Seq<char>,
    min_count: u64,
    ask_count: u64,
) -> Seq<char> {
    base + "/oracle/request_search?oid="@ + decimal_text(id as nat) + "&calldata="@ + calldata
        + "&min_count="@ + decimal_text(min_count as nat) + "&ask_count="@ + decimal_text(
        ask_count as nat,
    )
}

/// Whether an HTTP status code reports success.
pub open spec fn is_success(status: u16) -> bool {
    200 <= status && status <= 299
}

/// The binary payload that the envelope `j` carries, once its base64 is read.
pub open spec fn payload_of(j: &BandRequestJson) -> Option<Seq<u8>> {
    base64_decoded(j.result.result.response_packet_data.result@)
}

/// The price that the well-formed envelope `j` carries, if its payload is the
/// encoding of one.
pub open spec fn price_of(j: &BandRequestJson) -> Option<u64> {
    match payload_of(j) {
        Some(b) => obi_u64(b),
        None => None,
    }
}

/// Which oracle script to query and with what parameters.
#[derive(Debug, Clone, PartialEq, Eq)]
pub struct BandSource {
    pub base_uri: String,
    pub oracle_script_id: u64,
    pub calldata: String,
    pub min_count: u64,
    pub ask_count: u64,
}

impl BandSource {
    /// A source for the given oracle script and parameters on the default gateway.
    pub fn new(oracle_script_id: u64, calldata: String, min_count: u64, ask_count: u64) -> (r: Self)
        ensures
            r.base_uri@ == BASE_URI@,
            r.oracle_script_id == oracle_script_id,
            r.calldata == calldata,
            r.min_count == min_count,
            r.ask_count == ask_count,
    {
        Self::with_base_uri(String::from_str(BASE_URI), oracle_script_id, calldata, min_count, ask_count)
    }

    /// A source for the given oracle script and parameters on the gateway at
    /// `base_uri`.
    pub fn with_base_uri(
        base_uri: String,
        oracle_script_id: u64,
        calldata: String,
        min_count: u64,
        ask_count: u64,
    ) -> (r: Self)
        ensures
            r.base_uri == base_uri,
            r.oracle_script_id == oracle_script_id,
            r.calldata == calldata,
            r.min_count == min_count,
            r.ask_count == ask_count,
    {
        BandSource { base_uri, oracle_script_id, calldata, min_count, ask_count }
    }

    /// The URI of this source's oracle script metadata.
    pub fn oracle_script_uri(&self) -> (r: String)
        ensures
            r@ == oracle_script_uri_text(self.base_uri@, self.oracle_script_id),
    {
        let mut r = self.base_uri.clone();
        r.append("/oracle/oracle_scripts/");
        let id = decimal_string(self.oracle_script_id);
        r.append(id.as_str());
        r
    }

    /// The URI that searches for this source's resolved request.
    pub fn request_search_uri(&self) -> (r: String)
        ensures
            r@ == request_search_uri_text(
                self.base_uri@,
                self.oracle_script_id,
                self.calldata@,
                self.min_count,
                self.ask_count,
            ),
    {
        let mut r = self.base_uri.clone();
        r.append("/oracle/request_search?oid=");
        let id = decimal_string(self.oracle_script_id);
        r.append(id.as_str());
        r.append("&calldata=");
        r.append(self.calldata.as_str());
        r.append("&min_count=");
        let min = decimal_string(self.min_count);
        r.append(min.as_str());
        r.append("&ask_count=");
        let ask = decimal_string(self.ask_count);
        r.append(ask.as_str());
        r
    }
}

/// Accepts a success status and turns any other into `HttpStatus`.
pub fn check_status(status: u16) -> (r: Result<(), FetchError>)
    ensures
        is_success(status) ==> r is Ok,
        !is_success(status) ==> r == Err::<(), FetchError>(FetchError::HttpStatus(status)),
{
    if 200 <= status && status <= 299 {
        Ok(())
    } else {
        Err(FetchError::HttpStatus(status))
    }
}

/// The price that a resolved request's envelope carries: its fields are read,
/// then the payload of its response packet is decoded as a `Price`.
pub fn price_of_record(j: &BandRequestJson) -> (r: Result<u64, FetchError>)
    ensures
        !j.well_formed() ==> (r matches Err(e) && e is Decode),
        j.well_formed() ==> match price_of(j) {
            Some(px) => r == Ok::<u64, FetchError>(px),
            None => r == Err::<u64, FetchError>(FetchError::BinaryDecode),
        },
{
    let record = match BandRequest::from_json(j) {
        Ok(v) => v,
        Err(e) => return Err(e),
    };
    match Price::try_from_slice(record.result.result.response_packet_data.result.as_slice()) {
        Ok(price) => Ok(price.px),
        Err(e) => Err(e),
    }
}

/// The outcome of the request search, given the gateway's status and its body
/// read as an envelope (`None` where the body is not JSON of that shape).
pub fn price_from_response(status: u16, body: Option<&BandRequestJson>) -> (r: Result<
    u64,
    FetchError,
>)
    ensures
        !is_success(status) ==> r == Err::<u64, FetchError>(FetchError::HttpStatus(status)),
        is_success(status) ==> match body {
            None => r == Err::<u64, FetchError>(FetchError::Decode(DecodeKind::Json)),
            Some(j) => {
                &&& !j.well_formed() ==> (r matches Err(e) && e is Decode)
                &&& j.well_formed() ==> match price_of(j) {
                    Some(px) => r == Ok::<u64, FetchError>(px),
                    None => r == Err::<u64, FetchError>(FetchError::BinaryDecode),
                }
            },
        },
{
    match check_status(status) {
        Ok(()) => {},
        Err(e) => return Err(e),
    }
    match body {
        None => Err(FetchError::Decode(DecodeKind::Json)),
        Some(j) => price_of_record(j),
    }
}

/// The outcome of the metadata fetch, given the gateway's status and its body
/// read as an oracle script (`None` where the body is not JSON of that shape).
pub fn oracle_script_from_response(status: u16, body: Option<OracleScript>) -> (r: Result<
    OracleScript,
    FetchError,
>)
    ensures
        !is_success(status) ==> r == Err::<OracleScript, FetchError>(FetchError::HttpStatus(status)),
        is_success(status) ==> match body {
            None => r == Err::<OracleScript, FetchError>(FetchError::Decode(DecodeKind::Json)),
            Some(s) => r == Ok::<OracleScript, FetchError>(s),
        },
{
    match check_status(status) {
        Ok(()) => {},
        Err(e) => return Err(e),
    }
    match body {
        None => Err(FetchError::Decode(DecodeKind::Json)),
        Some(s) => Ok(s),
    }
}

} // verus!
