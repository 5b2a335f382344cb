//! The DNS provider, reached through its command-line tool.
//!
//! Every provider call is one run of the tool. This module says how each run
//! is invoked and what its output means. Starting the process is the caller's
//! part: it runs an [`Invocation`] and hands back the exit status and the
//! bytes of standard output.

use vstd::prelude::*;
use vstd::string::*;
use vstd::utf8::*;

verus! {

/// The provider's command-line tool and the region every call is made in.
#[derive(Debug)]
pub struct AliyunCli {
    cli_path: String,
    region: String,
}

/// The mathematical content of an [`AliyunCli`].
pub struct AliyunCliView {
    pub cli_path: Seq<char>,
    pub region: Seq<char>,
}

impl View for AliyunCli {
    type V = AliyunCliView;

    closed spec fn view(&self) -> AliyunCliView {
        AliyunCliView { cli_path: self.cli_path@, region: self.region@ }
    }
}

/// One run of a program: its path and its arguments, in order.
#[derive(Debug, PartialEq, Eq)]
pub struct Invocation {
    pub program: String,
    pub args: Vec<String>,
}

/// The mathematical content of an [`Invocation`].
pub struct InvocationView {
    pub program: Seq<char>,
    pub args: Seq<Seq<char>>,
}

impl View for Invocation {
    type V = InvocationView;

    open spec fn view(&self) -> InvocationView {
        InvocationView { program: self.program@, args: self.args.deep_view() }
    }
}

/// Why a provider call failed.
#[derive(Clone, Copy, Debug, PartialEq, Eq, Structural)]
pub enum ProviderError {
    /// The tool could not be started.
    ExecFailed,
    /// The tool exited with a status other than success.
    CmdFailed,
    /// Standard output is not UTF-8.
    NotUtf8,
    /// Standard output is not the JSON that was expected.
    InvalidJson,
}

/// One DNS record as the provider reported it.
#[derive(Debug, PartialEq, Eq)]
pub struct DomainRecord {
    /// The zone.
    pub domain_name: String,
    /// The provider's identifier of the record.
    pub record_id: String,
    /// The record type, such as `A`.
    pub rtype: String,
    /// The value the provider holds.
    pub value: String,
    /// The host prefix.
    pub rr: String,
    pub ttl: i64,
    pub line: String,
    pub locked: bool,
    pub status: String,
    pub weight: Option<i64>,
}

/// The mathematical content of a [`DomainRecord`].
pub struct DomainRecordView {
    pub domain_name: Seq<char>,
    pub record_id: Seq<char>,
    pub rtype: Seq<char>,
    pub value: Seq<char>,
    pub rr: Seq<char>,
    pub ttl: i64,
    pub line: Seq<char>,
    pub locked: bool,
    pub status: Seq<char>,
    pub weight: Option<i64>,
}

impl View for DomainRecord {
    type V = DomainRecordView;

    open spec fn view(&self) -> DomainRecordView {
        DomainRecordView {
            domain_name: self.domain_name@,
            record_id: self.record_id@,
            rtype: self.rtype@,
            value: self.value@,
            rr: self.rr@,
            ttl: self.ttl,
            line: self.line@,
            locked: self.locked,
            status: self.status@,
            weight: self.weight,
        }
    }
}

impl Clone for DomainRecord {
    fn clone(&self) -> (copy: Self)
        ensures
            copy@ == self@,
    {
        DomainRecord {
            domain_name: self.domain_name.clone(),
            record_id: self.record_id.clone(),
            rtype: self.rtype.clone(),
            value: self.value.clone(),
            rr: self.rr.clone(),
            ttl: self.ttl,
            line: self.line.clone(),
            locked: self.locked,
            status: self.status.clone(),
            weight: self.weight,
        }
    }
}

impl DeepView for DomainRecord {
    type V = DomainRecordView;

    open spec fn deep_view(&self) -> DomainRecordView {
        self@
    }
}

/// The list of records inside a listing reply.
#[derive(Debug)]
pub struct DomainRecords {
    record: Vec<DomainRecord>,
}

impl View for DomainRecords {
    type V = Seq<DomainRecordView>;

    closed spec fn view(&self) -> Seq<DomainRecordView> {
        self.record.deep_view()
    }
}

impl DomainRecords {
    /// Wraps the records of a listing, keeping their order.
    pub fn new(record: Vec<DomainRecord>) -> (r: Self)
        ensures
            r@ == record.deep_view(),
    {
        DomainRecords { record }
    }
}

/// The provider's reply to a listing of a domain's records.
#[derive(Debug)]
pub struct GetDomainRecordsResponse {
    domain_records: DomainRecords,
}

impl View for GetDomainRecordsResponse {
    type V = Seq<DomainRecordView>;

    closed spec fn view(&self) -> Seq<DomainRecordView> {
        self.domain_records@
    }
}

impl GetDomainRecordsResponse {
    /// Wraps the record list of a reply.
    pub fn new(domain_records: DomainRecords) -> (r: Self)
        ensures
            r@ == domain_records@,
    {
        GetDomainRecordsResponse { domain_records }
    }

    /// The records of the reply, in the provider's order.
    pub fn into_records(self) -> (records: Vec<DomainRecord>)
        ensures
            records.deep_view() == self@,
    {
        self.domain_records.record
    }
}

/// The arguments of the run that lists the records of `domain`.
pub open spec fn describe_records_args(region: Seq<char>, domain: Seq<char>) -> Seq<Seq<char>> {
    seq!["alidns"@, "DescribeDomainRecords"@, "--region"@, region, "--DomainName"@, domain]
}

/// The arguments of the run that sets the `A` record `record_id`, with host
/// prefix `rr`, to `value`.
pub open spec fn update_record_args(
    region: Seq<char>,
    record_id: Seq<char>,
    rr: Seq<char>,
    value: Seq<char>,
) -> Seq<Seq<char>> {
    seq![
        "alidns"@,
        "UpdateDomainRecord"@,
        "--region"@,
        region,
        "--RecordId"@,
        record_id,
        "--RR"@,
        rr,
        "--Type"@,
        "A"@,
        "--Value"@,
        value,
    ]
}

impl AliyunCli {
    /// A client that runs the tool at `cli_path` for the region `region`.
    pub fn new(cli_path: String, region: String) -> (cli: Self)
        ensures
            cli@ == (AliyunCliView { cli_path: cli_path@, region: region@ }),
    {
        Self { cli_path, region }
    }

    /// The run that sets the `A` record `record_id`, with host prefix `rr`,
    /// to `value`.
    pub fn update_domain_record_a(&self, record_id: &str, rr: &str, value: &str) -> (run:
        Invocation)
        ensures
            run@ == (InvocationView {
                program: self@.cli_path,
                args: update_record_args(self@.region, record_id@, rr@, value@),
            }),
    {
        let mut args: Vec<String> = Vec::new();
        args.push(String::from_str("alidns"));
        args.push(String::from_str("UpdateDomainRecord"));
        args.push(String::from_str("--region"));
        args.push(self.region.clone());
        args.push(String::from_str("--RecordId"));
        args.push(String::from_str(record_id));
        args.push(String::from_str("--RR"));
        args.push(String::from_str(rr));
        args.push(String::from_str("--Type"));
        args.push(String::from_str("A"));
        args.push(String::from_str("--Value"));
        args.push(String::from_str(value));
        assert(args.deep_view() =~= update_record_args(self@.region, record_id@, rr@, value@));
        Invocation { program: self.cli_path.clone(), args }
    }

    /// The run that lists the records of `domain`.
    pub fn get_domain_records(&self, domain: &str) -> (run: Invocation)
        ensures
            run@ == (InvocationView {
                program: self@.cli_path,
                args: describe_records_args(self@.region, domain@),
            }),
    {
        let mut args: Vec<String> = Vec::new();
        args.push(String::from_str("alidns"));
        args.push(String::from_str("DescribeDomainRecords"));
        args.push(String::from_str("--region"));
        args.push(self.region.clone());
        args.push(String::from_str("--DomainName"));
        args.push(String::from_str(domain));
        assert(args.deep_view() =~= describe_records_args(self@.region, domain@));
        Invocation { program: self.cli_path.clone(), args }
    }
}

/// The error of `String::from_utf8`, carried as it is.
#[verifier::external_type_specification]
#[verifier::external_body]
pub struct ExFromUtf8Error(std::string::FromUtf8Error);

/// `String::from_utf8` succeeds exactly on well-formed UTF-8, and the string
/// it gives holds the very bytes it was given.
pub assume_specification[ String::from_utf8 ](vec: Vec<u8>) -> (r: Result<
    String,
    std::string::FromUtf8Error,
>)
    ensures
        r is Ok <==> valid_utf8(vec@),
        r matches Ok(s) ==> encode_utf8(s@) == vec@,
;

/// A JSON value of `serde_json`, carried as it is.
#[verifier::external_type_specification]
#[verifier::external_body]
pub struct ExJsonValue(serde_json::Value);

/// The error of `serde_json`, carried as it is.
#[verifier::external_type_specification]
#[verifier::external_body]
pub struct ExJsonError(serde_json::Error);

/// The JSON value that `text` is, or `None` where `text` is not JSON.
pub uninterp spec fn json_value(text: Seq<char>) -> Option<serde_json::Value>;

/// Parses `text` with `serde_json::from_str` into a `serde_json::Value`.
///
/// Trusted: the parser is a function of the text alone, so its outcome has a
/// name, [`json_value`]. Nothing is claimed of what that name holds.
#[verifier::external_body]
fn parse_json(text: &str) -> (r: Result<serde_json::Value, serde_json::Error>)
    ensures
        r is Ok <==> json_value(text@) is Some,
        r matches Ok(value) ==> json_value(text@) == Some(value),
{
    serde_json::from_str(text)
}

/// What a finished run gives as text: its standard output, decoded, where
/// the run succeeded and the output is UTF-8.
pub open spec fn command_text_of(success: bool, stdout: Seq<u8>) -> Result<
    Seq<char>,
    ProviderError,
> {
    if !success {
        Err(ProviderError::CmdFailed)
    } else if !valid_utf8(stdout) {
        Err(ProviderError::NotUtf8)
    } else {
        Ok(decode_utf8(stdout))
    }
}

/// The view of a result that holds text.
pub open spec fn text_result_view(r: Result<String, ProviderError>) -> Result<
    Seq<char>,
    ProviderError,
> {
    match r {
        Ok(text) => Ok(text@),
        Err(e) => Err(e),
    }
}

/// The text a finished run printed.
///
/// `success` tells whether the run exited with success, `stdout` is what it
/// wrote to standard output. The exit status is looked at first.
pub fn command_text(success: bool, stdout: Vec<u8>) -> (r: Result<String, ProviderError>)
    ensures
        text_result_view(r) == command_text_of(success, stdout@),
{
    if !success {
        return Err(ProviderError::CmdFailed);
    }
    match String::from_utf8(stdout) {
        Ok(text) => {
            proof {
                encode_utf8_decode_utf8(text@);
            }
            Ok(text)
        },
        Err(_) => Err(ProviderError::NotUtf8),
    }
}

/// What a parsed, or unparsable, JSON text gives as a reply.
pub open spec fn json_reply_of(parsed: Option<serde_json::Value>) -> Result<
    serde_json::Value,
    ProviderError,
> {
    match parsed {
        Some(value) => Ok(value),
        None => Err(ProviderError::InvalidJson),
    }
}

/// Turns the outcome of parsing a reply as JSON into the reply.
pub fn json_reply(parsed: Result<serde_json::Value, serde_json::Error>) -> (r: Result<
    serde_json::Value,
    ProviderError,
>)
    ensures
        r == json_reply_of(parsed.ok()),
{
    match parsed {
        Ok(value) => Ok(value),
        Err(_) => Err(ProviderError::InvalidJson),
    }
}

/// What a finished run gives as a JSON reply.
pub open spec fn exec_cmd_json_of(success: bool, stdout: Seq<u8>) -> Result<
    serde_json::Value,
    ProviderError,
> {
    match command_text_of(success, stdout) {
        Ok(text) => json_reply_of(json_value(text)),
        Err(e) => Err(e),
    }
}

/// The JSON reply of a finished run.
///
/// Fails where the run did not exit with success, where its output is not
/// UTF-8, and where the output is not JSON, in this order.
pub fn exec_cmd_json(success: bool, stdout: Vec<u8>) -> (r: Result<
    serde_json::Value,
    ProviderError,
>)
    ensures
        r == exec_cmd_json_of(success, stdout@),
{
    match command_text(success, stdout) {
        Ok(text) => json_reply(parse_json(text.as_str())),
        Err(e) => Err(e),
    }
}

impl ProviderError {
    /// The message of the error.
    pub open spec fn message_of(self) -> Seq<char> {
        match self {
            ProviderError::ExecFailed => "fail to exec cmd"@,
            ProviderError::CmdFailed => "cmd output fail"@,
            ProviderError::NotUtf8 => "stdout not string"@,
            ProviderError::InvalidJson => "invalid json"@,
        }
    }

    /// The message of the error, as text.
    pub fn message(&self) -> (text: String)
        ensures
            text@ == self.message_of(),
    {
        match self {
            ProviderError::ExecFailed => String::from_str("fail to exec cmd"),
            ProviderError::CmdFailed => String::from_str("cmd output fail"),
            ProviderError::NotUtf8 => String::from_str("stdout not string"),
            ProviderError::InvalidJson => String::from_str("invalid json"),
        }
    }
}

} // verus!
