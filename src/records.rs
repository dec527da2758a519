use vstd::prelude::*;

use crate::codec::{base64_decoded, from_base64_to_bytes, from_str, parse_u64};
use crate::error::FetchError;

verus! {

/// Whether the text `s` denotes the integer `v` as the gateway writes integers.
pub open spec fn int_field(v: u64, s: &String) -> bool {
    parse_u64(s@) == Some(v)
}

/// Whether the text `s` is the base64 form of the bytes `v`.
pub open spec fn bytes_field(v: &Vec<u8>, s: &String) -> bool {
    base64_decoded(s@) == Some(v@)
}

/// Whether the text `s` denotes some integer.
pub open spec fn int_ok(s: &String) -> bool {
    parse_u64(s@) is Some
}

/// Whether the text `s` is base64.
pub open spec fn bytes_ok(s: &String) -> bool {
    base64_decoded(s@) is Some
}

/// Static metadata of an oracle script.
#[derive(Debug, Clone, PartialEq, Eq, Default)]
pub struct OracleScriptResult {
    pub owner: String,
    pub name: String,
    pub description: String,
    pub filename: String,
    pub schema: String,
    pub source_code_url: String,
}

/// An oracle script's metadata together with the block height it was read at.
#[derive(Debug, Clone, PartialEq, Eq, Default)]
pub struct OracleScript {
    pub height: String,
    pub result: OracleScriptResult,
}

/// One data-source request of an oracle request.
#[derive(Debug, Clone, PartialEq, Eq, Default)]
pub struct RawRequest {
    pub external_id: u64,
    pub data_source_id: u64,
    pub calldata: Vec<u8>,
}

/// A raw request as the gateway sends it: integers and bytes as text.
#[derive(Debug, Clone, PartialEq, Eq, Default)]
pub struct RawRequestJson {
    pub external_id: String,
    pub data_source_id: String,
    pub calldata: String,
}

impl RawRequestJson {
    /// Whether every coerced field of the record can be read.
    pub open spec fn well_formed(&self) -> bool {
        int_ok(&self.external_id) && int_ok(&self.data_source_id) && bytes_ok(&self.calldata)
    }
}

impl RawRequest {
    /// Whether `self` is what `j` reads as.
    pub open spec fn decodes(&self, j: &RawRequestJson) -> bool {
        &&& int_field(self.external_id, &j.external_id)
        &&& int_field(self.data_source_id, &j.data_source_id)
        &&& bytes_field(&self.calldata, &j.calldata)
    }

    /// Reads a raw request from its text form; fails with a decode error exactly
    /// where one of its fields cannot be read.
    pub fn from_json(j: &RawRequestJson) -> (r: Result<RawRequest, FetchError>)
        ensures
            r is Ok <==> j.well_formed(),
            match r {
                Ok(v) => v.decodes(j),
                Err(e) => e is Decode,
            },
    {
        let external_id = match from_str(j.external_id.as_str()) {
            Ok(v) => v,
            Err(e) => return Err(e),
        };
        let data_source_id = match from_str(j.data_source_id.as_str()) {
            Ok(v) => v,
            Err(e) => return Err(e),
        };
        let calldata = match from_base64_to_bytes(j.calldata.as_str()) {
            Ok(v) => v,
            Err(e) => return Err(e),
        };
        Ok(RawRequest { external_id, data_source_id, calldata })
    }
}

/// One validator's report of one data-source result.
#[derive(Debug, Clone, PartialEq, Eq, Default)]
pub struct RawReport {
    pub external_id: u64,
    pub data: String,
}

/// A raw report as the gateway sends it.
#[derive(Debug, Clone, PartialEq, Eq, Default)]
pub struct RawReportJson {
    pub external_id: String,
    pub data: String,
}

impl RawReportJson {
    /// Whether every coerced field of the record can be read.
    pub open spec fn well_formed(&self) -> bool {
        int_ok(&self.external_id)
    }
}

impl RawReport {
    /// Whether `self` is what `j` reads as.
    pub open spec fn decodes(&self, j: &RawReportJson) -> bool {
        &&& int_field(self.external_id, &j.external_id)
        &&& self.data == j.data
    }

    /// Reads a raw report from its text form; fails with a decode error exactly
    /// where its id cannot be read.
    pub fn from_json(j: &RawReportJson) -> (r: Result<RawReport, FetchError>)
        ensures
            r is Ok <==> j.well_formed(),
            match r {
                Ok(v) => v.decodes(j),
                Err(e) => e is Decode,
            },
    {
        let external_id = match from_str(j.external_id.as_str()) {
            Ok(v) => v,
            Err(e) => return Err(e),
        };
        Ok(RawReport { external_id, data: j.data.clone() })
    }
}

/// One validator's attestation for an oracle request.
#[derive(Debug, Clone, PartialEq, Eq, Default)]
pub struct Report {
    pub validator: String,
    pub in_before_resolve: bool,
    pub raw_reports: Vec<RawReport>,
}

/// A report as the gateway sends it.
#[derive(Debug, Clone, PartialEq, Eq, Default)]
pub struct ReportJson {
    pub validator: String,
    pub in_before_resolve: bool,
    pub raw_reports: Vec<RawReportJson>,
}

impl ReportJson {
    /// Whether every coerced field of the record can be read.
    pub open spec fn well_formed(&self) -> bool {
        forall|i: int| 0 <= i < self.raw_reports@.len() ==> (#[trigger] self.raw_reports@[i]).well_formed()
    }
}

impl Report {
    /// Whether `self` is what `j` reads as.
    pub open spec fn decodes(&self, j: &ReportJson) -> bool {
        &&& self.validator == j.validator
        &&& self.in_before_resolve == j.in_before_resolve
        &&& self.raw_reports@.len() == j.raw_reports@.len()
        &&& forall|i: int| 0 <= i < j.raw_reports@.len()
            ==> (#[trigger] self.raw_reports@[i]).decodes(&j.raw_reports@[i])
    }

    /// Reads a report from its text form; fails with a decode error exactly
    /// where one of its raw reports cannot be read.
    pub fn from_json(j: &ReportJson) -> (r: Result<Report, FetchError>)
        ensures
            r is Ok <==> j.well_formed(),
            match r {
                Ok(v) => v.decodes(j),
                Err(e) => e is Decode,
            },
    {
        let mut raw_reports: Vec<RawReport> = Vec::new();
        let mut i: usize = 0;
        while i < j.raw_reports.len()
            invariant
                i <= j.raw_reports@.len(),
                raw_reports@.len() == i,
                forall|k: int| 0 <= k < i ==> (#[trigger] raw_reports@[k]).decodes(&j.raw_reports@[k]),
                forall|k: int| 0 <= k < i ==> (#[trigger] j.raw_reports@[k]).well_formed(),
            decreases j.raw_reports@.len() - i,
        {
            match RawReport::from_json(&j.raw_reports[i]) {
                Ok(v) => raw_reports.push(v),
                Err(e) => return Err(e),
            }
            i = i + 1;
        }
        Ok(Report { validator: j.validator.clone(), in_before_resolve: j.in_before_resolve, raw_reports })
    }
}

/// Copies a list of strings.
fn clone_strings(v: &Vec<String>) -> (r: Vec<String>)
    ensures
        r@ == v@,
{
    let mut r: Vec<String> = Vec::new();
    let mut i: usize = 0;
    while i < v.len()
        invariant
            i <= v@.len(),
            r@ == v@.subrange(0, i as int),
        decreases v@.len() - i,
    {
        r.push(v[i].clone());
        i = i + 1;
    }
    assert(r@ =~= v@);
    r
}

/// The parameters of an oracle request.
#[derive(Debug, Clone, PartialEq, Eq, Default)]
pub struct Req {
    pub oracle_script_id: u64,
    pub calldata: Vec<u8>,
    pub requested_validators: Vec<String>,
    pub min_count: u64,
    pub request_height: u64,
    pub request_time: String,
    pub client_id: String,
    pub raw_requests: Vec<RawRequest>,
}

/// The parameters of an oracle request as the gateway sends them.
#[derive(Debug, Clone, PartialEq, Eq, Default)]
pub struct ReqJson {
    pub oracle_script_id: String,
    pub calldata: String,
    pub requested_validators: Vec<String>,
    pub min_count: String,
    pub request_height: String,
    pub request_time: String,
    pub client_id: String,
    pub raw_requests: Vec<RawRequestJson>,
}

impl ReqJson {
    /// Whether every coerced field of the record can be read.
    pub open spec fn well_formed(&self) -> bool {
        &&& int_ok(&self.oracle_script_id)
        &&& bytes_ok(&self.calldata)
        &&& int_ok(&self.min_count)
        &&& int_ok(&self.request_height)
        &&& forall|i: int| 0 <= i < self.raw_requests@.len() ==> (#[trigger] self.raw_requests@[i]).well_formed()
    }
}

impl Req {
    /// Whether `self` is what `j` reads as.
    pub open spec fn decodes(&self, j: &ReqJson) -> bool {
        &&& int_field(self.oracle_script_id, &j.oracle_script_id)
        &&& bytes_field(&self.calldata, &j.calldata)
        &&& self.requested_validators@ == j.requested_validators@
        &&& int_field(self.min_count, &j.min_count)
        &&& int_field(self.request_height, &j.request_height)
        &&& self.request_time == j.request_time
        &&& self.client_id == j.client_id
        &&& self.raw_requests@.len() == j.raw_requests@.len()
        &&& forall|i: int| 0 <= i < j.raw_requests@.len()
            ==> (#[trigger] self.raw_requests@[i]).decodes(&j.raw_requests@[i])
    }

    /// Reads request parameters from their text form; fails with a decode error
    /// exactly where one of the fields cannot be read.
    pub fn from_json(j: &ReqJson) -> (r: Result<Req, FetchError>)
        ensures
            r is Ok <==> j.well_formed(),
            match r {
                Ok(v) => v.decodes(j),
                Err(e) => e is Decode,
            },
    {
        let oracle_script_id = match from_str(j.oracle_script_id.as_str()) {
            Ok(v) => v,
            Err(e) => return Err(e),
        };
        let calldata = match from_base64_to_bytes(j.calldata.as_str()) {
            Ok(v) => v,
            Err(e) => return Err(e),
        };
        let min_count = match from_str(j.min_count.as_str()) {
            Ok(v) => v,
            Err(e) => return Err(e),
        };
        let request_height = match from_str(j.request_height.as_str()) {
            Ok(v) => v,
            Err(e) => return Err(e),
        };
        let mut raw_requests: Vec<RawRequest> = Vec::new();
        let mut i: usize = 0;
        while i < j.raw_requests.len()
            invariant
                i <= j.raw_requests@.len(),
                raw_requests@.len() == i,
                forall|k: int| 0 <= k < i ==> (#[trigger] raw_requests@[k]).decodes(&j.raw_requests@[k]),
                forall|k: int| 0 <= k < i ==> (#[trigger] j.raw_requests@[k]).well_formed(),
            decreases j.raw_requests@.len() - i,
        {
            match RawRequest::from_json(&j.raw_requests[i]) {
                Ok(v) => raw_requests.push(v),
                Err(e) => return Err(e),
            }
            i = i + 1;
        }
        Ok(Req {
            oracle_script_id,
            calldata,
            requested_validators: clone_strings(&j.requested_validators),
            min_count,
            request_height,
            request_time: j.request_time.clone(),
            client_id: j.client_id.clone(),
            raw_requests,
        })
    }
}

/// The request parameters as echoed in the oracle packet.
#[derive(Debug, Clone, PartialEq, Eq, Default)]
pub struct RequestPacketData {
    pub client_id: String,
    pub oracle_script_id: u64,
    pub calldata: Vec<u8>,
    pub ask_count: u64,
    pub min_count: u64,
}

/// The request packet as the gateway sends it.
#[derive(Debug, Clone, PartialEq, Eq, Default)]
pub struct RequestPacketDataJson {
    pub client_id: String,
    pub oracle_script_id: String,
    pub calldata: String,
    pub ask_count: String,
    pub min_count: String,
}

impl RequestPacketDataJson {
    /// Whether every coerced field of the record can be read.
    pub open spec fn well_formed(&self) -> bool {
        &&& int_ok(&self.oracle_script_id)
        &&& bytes_ok(&self.calldata)
        &&& int_ok(&self.ask_count)
        &&& int_ok(&self.min_count)
    }
}

impl RequestPacketData {
    /// Whether `self` is what `j` reads as.
    pub open spec fn decodes(&self, j: &RequestPacketDataJson) -> bool {
        &&& self.client_id == j.client_id
        &&& int_field(self.oracle_script_id, &j.oracle_script_id)
        &&& bytes_field(&self.calldata, &j.calldata)
        &&& int_field(self.ask_count, &j.ask_count)
        &&& int_field(self.min_count, &j.min_count)
    }

    /// Reads a request packet from its text form; fails with a decode error
    /// exactly where one of the fields cannot be read.
    pub fn from_json(j: &RequestPacketDataJson) -> (r: Result<RequestPacketData, FetchError>)
        ensures
            r is Ok <==> j.well_formed(),
            match r {
                Ok(v) => v.decodes(j),
                Err(e) => e is Decode,
            },
    {
        let oracle_script_id = match from_str(j.oracle_script_id.as_str()) {
            Ok(v) => v,
            Err(e) => return Err(e),
        };
        let calldata = match from_base64_to_bytes(j.calldata.as_str()) {
            Ok(v) => v,
            Err(e) => return Err(e),
        };
        let ask_count = match from_str(j.ask_count.as_str()) {
            Ok(v) => v,
            Err(e) => return Err(e),
        };
        let min_count = match from_str(j.min_count.as_str()) {
            Ok(v) => v,
            Err(e) => return Err(e),
        };
        Ok(RequestPacketData {
            client_id: j.client_id.clone(),
            oracle_script_id,
            calldata,
            ask_count,
            min_count,
        })
    }
}

/// The outcome of a resolved oracle request; `result` holds the binary payload.
#[derive(Debug, Clone, PartialEq, Eq, Default)]
pub struct ResponsePacketData {
    pub client_id: String,
    pub request_id: u64,
    pub ans_count: u64,
    pub request_time: u64,
    pub resolve_time: u64,
    pub resolve_status: u64,
    pub result: Vec<u8>,
}

/// The response packet as the gateway sends it; `resolve_status` comes as a
/// plain number.
#[derive(Debug, Clone, PartialEq, Eq, Default)]
pub struct ResponsePacketDataJson {
    pub client_id: String,
    pub request_id: String,
    pub ans_count: String,
    pub request_time: String,
    pub resolve_time: String,
    pub resolve_status: u64,
    pub result: String,
}

impl ResponsePacketDataJson {
    /// Whether every coerced field of the record can be read.
    pub open spec fn well_formed(&self) -> bool {
        &&& int_ok(&self.request_id)
        &&& int_ok(&self.ans_count)
        &&& int_ok(&self.request_time)
        &&& int_ok(&self.resolve_time)
        &&& bytes_ok(&self.result)
    }
}

impl ResponsePacketData {
    /// Whether `self` is what `j` reads as.
    pub open spec fn decodes(&self, j: &ResponsePacketDataJson) -> bool {
        &&& self.client_id == j.client_id
        &&& int_field(self.request_id, &j.request_id)
        &&& int_field(self.ans_count, &j.ans_count)
        &&& int_field(self.request_time, &j.request_time)
        &&& int_field(self.resolve_time, &j.resolve_time)
        &&& self.resolve_status == j.resolve_status
        &&& bytes_field(&self.result, &j.result)
    }

    /// Reads a response packet from its text form; fails with a decode error
    /// exactly where one of the fields cannot be read.
    pub fn from_json(j: &ResponsePacketDataJson) -> (r: Result<ResponsePacketData, FetchError>)
        ensures
            r is Ok <==> j.well_formed(),
            match r {
                Ok(v) => v.decodes(j),
                Err(e) => e is Decode,
            },
    {
        let request_id = match from_str(j.request_id.as_str()) {
            Ok(v) => v,
            Err(e) => return Err(e),
        };
        let ans_count = match from_str(j.ans_count.as_str()) {
            Ok(v) => v,
            Err(e) => return Err(e),
        };
        let request_time = match from_str(j.request_time.as_str()) {
            Ok(v) => v,
            Err(e) => return Err(e),
        };
        let resolve_time = match from_str(j.resolve_time.as_str()) {
            Ok(v) => v,
            Err(e) => return Err(e),
        };
        let result = match from_base64_to_bytes(j.result.as_str()) {
            Ok(v) => v,
            Err(e) => return Err(e),
        };
        Ok(ResponsePacketData {
            client_id: j.client_id.clone(),
            request_id,
            ans_count,
            request_time,
            resolve_time,
            resolve_status: j.resolve_status,
            result,
        })
    }
}

/// The oracle packet of a resolved request.
#[derive(Debug, Clone, PartialEq, Eq, Default)]
pub struct Packet {
    pub request_packet_data: RequestPacketData,
    pub response_packet_data: ResponsePacketData,
}

/// The oracle packet as the gateway sends it.
#[derive(Debug, Clone, PartialEq, Eq, Default)]
pub struct PacketJson {
    pub request_packet_data: RequestPacketDataJson,
    pub response_packet_data: ResponsePacketDataJson,
}

impl PacketJson {
    /// Whether every coerced field of the record can be read.
    pub open spec fn well_formed(&self) -> bool {
        self.request_packet_data.well_formed() && self.response_packet_data.well_formed()
    }
}

impl Packet {
    /// Whether `self` is what `j` reads as.
    pub open spec fn decodes(&self, j: &PacketJson) -> bool {
        self.request_packet_data.decodes(&j.request_packet_data)
            && self.response_packet_data.decodes(&j.response_packet_data)
    }

    /// Reads an oracle packet from its text form; fails with a decode error
    /// exactly where one of the fields cannot be read.
    pub fn from_json(j: &PacketJson) -> (r: Result<Packet, FetchError>)
        ensures
            r is Ok <==> j.well_formed(),
            match r {
                Ok(v) => v.decodes(j),
                Err(e) => e is Decode,
            },
    {
        let request_packet_data = match RequestPacketData::from_json(&j.request_packet_data) {
            Ok(v) => v,
            Err(e) => return Err(e),
        };
        let response_packet_data = match ResponsePacketData::from_json(&j.response_packet_data) {
            Ok(v) => v,
            Err(e) => return Err(e),
        };
        Ok(Packet { request_packet_data, response_packet_data })
    }
}

/// A resolved oracle request: its parameters, the reports and the packet.
#[derive(Debug, Clone, PartialEq, Eq, Default)]
pub struct Res {
    pub request: Req,
    pub reports: Vec<Report>,
    pub result: Packet,
}

/// A resolved oracle request as the gateway sends it.
#[derive(Debug, Clone, PartialEq, Eq, Default)]
pub struct ResJson {
    pub request: ReqJson,
    pub reports: Vec<ReportJson>,
    pub result: PacketJson,
}

impl ResJson {
    /// Whether every coerced field of the record can be read.
    pub open spec fn well_formed(&self) -> bool {
        &&& self.request.well_formed()
        &&& forall|i: int| 0 <= i < self.reports@.len() ==> (#[trigger] self.reports@[i]).well_formed()
        &&& self.result.well_formed()
    }
}

impl Res {
    /// Whether `self` is what `j` reads as.
    pub open spec fn decodes(&self, j: &ResJson) -> bool {
        &&& self.request.decodes(&j.request)
        &&& self.reports@.len() == j.reports@.len()
        &&& forall|i: int| 0 <= i < j.reports@.len()
            ==> (#[trigger] self.reports@[i]).decodes(&j.reports@[i])
        &&& self.result.decodes(&j.result)
    }

    /// Reads a resolved request from its text form; fails with a decode error
    /// exactly where one of the fields cannot be read.
    pub fn from_json(j: &ResJson) -> (r: Result<Res, FetchError>)
        ensures
            r is Ok <==> j.well_formed(),
            match r {
                Ok(v) => v.decodes(j),
                Err(e) => e is Decode,
            },
    {
        let request = match Req::from_json(&j.request) {
            Ok(v) => v,
            Err(e) => return Err(e),
        };
        let mut reports: Vec<Report> = Vec::new();
        let mut i: usize = 0;
        while i < j.reports.len()
            invariant
                i <= j.reports@.len(),
                reports@.len() == i,
                forall|k: int| 0 <= k < i ==> (#[trigger] reports@[k]).decodes(&j.reports@[k]),
                forall|k: int| 0 <= k < i ==> (#[trigger] j.reports@[k]).well_formed(),
            decreases j.reports@.len() - i,
        {
            match Report::from_json(&j.reports[i]) {
                Ok(v) => reports.push(v),
                Err(e) => return Err(e),
            }
            i = i + 1;
        }
        let result = match Packet::from_json(&j.result) {
            Ok(v) => v,
            Err(e) => return Err(e),
        };
        Ok(Res { request, reports, result })
    }
}

/// The envelope of a request search: the block height and the resolved request.
#[derive(Debug, Clone, PartialEq, Eq, Default)]
pub struct BandRequest {
    pub height: u64,
    pub result: Res,
}

/// The envelope as the gateway sends it.
#[derive(Debug, Clone, PartialEq, Eq, Default)]
pub struct BandRequestJson {
    pub height: String,
    pub result: ResJson,
}

impl BandRequestJson {
    /// Whether every coerced field of the record can be read.
    pub open spec fn well_formed(&self) -> bool {
        int_ok(&self.height) && self.result.well_formed()
    }
}

impl BandRequest {
    /// Whether `self` is what `j` reads as.
    pub open spec fn decodes(&self, j: &BandRequestJson) -> bool {
        int_field(self.height, &j.height) && self.result.decodes(&j.result)
    }

    /// Reads the envelope from its text form; fails with a decode error exactly
    /// where one of the fields cannot be read.
    pub fn from_json(j: &BandRequestJson) -> (r: Result<BandRequest, FetchError>)
        ensures
            r is Ok <==> j.well_formed(),
            match r {
                Ok(v) => v.decodes(j),
                Err(e) => e is Decode,
            },
    {
        let height = match from_str(j.height.as_str()) {
            Ok(v) => v,
            Err(e) => return Err(e),
        };
        let result = match Res::from_json(&j.result) {
            Ok(v) => v,
            Err(e) => return Err(e),
        };
        Ok(BandRequest { height, result })
    }
}

} // verus!
