use vstd::prelude::*;

use crate::config::Eagle;
use crate::decode::{spec_power_millis, DecodeError, EagleDemand};
use crate::power::PowerValue;
use crate::registry::{MetricRegistry, SharedRegistry};

verus! {

/// Why one poll cycle failed. Every failure leaves the registry
/// unchanged: the previous value stays published.
#[derive(Clone, Copy, Debug, PartialEq, Eq, Structural)]
pub enum PollError {
    /// The outbound request never completed: connect, transport or
    /// timeout failure.
    Network,
    /// The exchange completed but the answer was unusable: a non-success
    /// status, or a body without the expected JSON shape.
    Protocol,
    /// The JSON shape was right but the numeric fields did not decode.
    Decode(DecodeError),
}

/// The string member at `body.<outer>.<key>` when `body` is a JSON
/// document whose `outer` member is an object whose `key` member is a
/// string; nothing otherwise.
pub uninterp spec fn json_string_at(body: Seq<char>, outer: Seq<char>, key: Seq<char>) -> Option<
    Seq<char>,
>;

/// Relies on `serde_json::from_str`, `serde_json::Value::get` and
/// `serde_json::Value::as_str`: parsing a document and indexing two
/// levels of objects, so the result is a function of the three strings
/// alone, present exactly when the document parses and the path holds a
/// string.
#[verifier::external_body]
fn json_string_field(body: &str, outer: &str, key: &str) -> (r: Option<String>)
    ensures
        r matches Some(s) ==> json_string_at(body@, outer@, key@) == Some(s@),
        r is None ==> json_string_at(body@, outer@, key@) is None,
{
    let doc = match serde_json::from_str::<serde_json::Value>(body) {
        Ok(doc) => doc,
        Err(_) => return None,
    };
    match doc.get(outer) {
        Some(outer_value) => match outer_value.get(key) {
            Some(field) => match field.as_str() {
                Some(s) => Some(s.to_owned()),
                None => None,
            },
            None => None,
        },
        None => None,
    }
}

/// The member of the response's `InstantaneousDemand` object under `key`.
pub open spec fn spec_demand_field(body: Seq<char>, key: Seq<char>) -> Option<Seq<char>> {
    json_string_at(body, "InstantaneousDemand"@, key)
}

/// Whether the response body has the expected shape: a JSON document
/// whose `InstantaneousDemand` object holds all nine fields as strings.
pub open spec fn spec_reading_complete(body: Seq<char>) -> bool {
    &&& spec_demand_field(body, "DeviceMacId"@) is Some
    &&& spec_demand_field(body, "MeterMacId"@) is Some
    &&& spec_demand_field(body, "TimeStamp"@) is Some
    &&& spec_demand_field(body, "Demand"@) is Some
    &&& spec_demand_field(body, "Multiplier"@) is Some
    &&& spec_demand_field(body, "Divisor"@) is Some
    &&& spec_demand_field(body, "DigitsRight"@) is Some
    &&& spec_demand_field(body, "DigitsLeft"@) is Some
    &&& spec_demand_field(body, "SuppressLeadingZero"@) is Some
}

/// Reads the nine fields of a reading out of the response body. Succeeds
/// exactly when the body has the expected shape; anything else is a
/// protocol error.
pub fn parse_reading(body: &str) -> (r: Result<EagleDemand, PollError>)
    ensures
        r is Ok <==> spec_reading_complete(body@),
        r matches Ok(d) ==> {
            &&& d.device_mac_id@ == spec_demand_field(body@, "DeviceMacId"@)->Some_0
            &&& d.meter_mac_id@ == spec_demand_field(body@, "MeterMacId"@)->Some_0
            &&& d.time_stamp@ == spec_demand_field(body@, "TimeStamp"@)->Some_0
            &&& d.demand@ == spec_demand_field(body@, "Demand"@)->Some_0
            &&& d.multiplier@ == spec_demand_field(body@, "Multiplier"@)->Some_0
            &&& d.divisor@ == spec_demand_field(body@, "Divisor"@)->Some_0
            &&& d.digits_right@ == spec_demand_field(body@, "DigitsRight"@)->Some_0
            &&& d.digits_left@ == spec_demand_field(body@, "DigitsLeft"@)->Some_0
            &&& d.suppress_leading_zero@ == spec_demand_field(body@, "SuppressLeadingZero"@)->Some_0
        },
        r matches Err(e) ==> e == PollError::Protocol,
{
    let device_mac_id = match json_string_field(body, "InstantaneousDemand", "DeviceMacId") {
        Some(s) => s,
        None => {
            return Err(PollError::Protocol);
        },
    };
    let meter_mac_id = match json_string_field(body, "InstantaneousDemand", "MeterMacId") {
        Some(s) => s,
        None => {
            return Err(PollError::Protocol);
        },
    };
    let time_stamp = match json_string_field(body, "InstantaneousDemand", "TimeStamp") {
        Some(s) => s,
        None => {
            return Err(PollError::Protocol);
        },
    };
    let demand = match json_string_field(body, "InstantaneousDemand", "Demand") {
        Some(s) => s,
        None => {
            return Err(PollError::Protocol);
        },
    };
    let multiplier = match json_string_field(body, "InstantaneousDemand", "Multiplier") {
        Some(s) => s,
        None => {
            return Err(PollError::Protocol);
        },
    };
    let divisor = match json_string_field(body, "InstantaneousDemand", "Divisor") {
        Some(s) => s,
        None => {
            return Err(PollError::Protocol);
        },
    };
    let digits_right = match json_string_field(body, "InstantaneousDemand", "DigitsRight") {
        Some(s) => s,
        None => {
            return Err(PollError::Protocol);
        },
    };
    let digits_left = match json_string_field(body, "InstantaneousDemand", "DigitsLeft") {
        Some(s) => s,
        None => {
            return Err(PollError::Protocol);
        },
    };
    let suppress_leading_zero = match json_string_field(
        body,
        "InstantaneousDemand",
        "SuppressLeadingZero",
    ) {
        Some(s) => s,
        None => {
            return Err(PollError::Protocol);
        },
    };
    Ok(
        EagleDemand {
            device_mac_id,
            meter_mac_id,
            time_stamp,
            demand,
            multiplier,
            divisor,
            digits_right,
            digits_left,
            suppress_leading_zero,
        },
    )
}

/// The outcome of one completed poll exchange, decided by the status and
/// body alone: a non-success status or an unexpected body shape is a
/// protocol error; otherwise the decoder decides, and its value (in
/// thousandths of a watt) is the cycle's result.
pub open spec fn spec_poll_outcome(status: u16, body: Seq<char>) -> Result<nat, PollError> {
    if status != 200 {
        Err(PollError::Protocol)
    } else if !spec_reading_complete(body) {
        Err(PollError::Protocol)
    } else {
        match spec_power_millis(
            spec_demand_field(body, "Demand"@)->Some_0,
            spec_demand_field(body, "Multiplier"@)->Some_0,
            spec_demand_field(body, "Divisor"@)->Some_0,
        ) {
            Ok(m) => Ok(m),
            Err(e) => Err(PollError::Decode(e)),
        }
    }
}

/// Turns one completed exchange into the poll outcome.
pub fn interpret_response(status: u16, body: &str) -> (r: Result<PowerValue, PollError>)
    ensures
        r matches Ok(p) ==> spec_poll_outcome(status, body@) == Ok::<nat, PollError>(
            p.millis as nat,
        ),
        r matches Err(e) ==> spec_poll_outcome(status, body@) == Err::<nat, PollError>(e),
{
    if status != 200 {
        return Err(PollError::Protocol);
    }
    let reading = match parse_reading(body) {
        Ok(d) => d,
        Err(e) => {
            return Err(e);
        },
    };
    match reading.get_power() {
        Ok(p) => Ok(p),
        Err(e) => Err(PollError::Decode(e)),
    }
}

/// What one poll cycle's outbound work came back with.
pub enum PollEvent {
    /// The request completed, with this status and body.
    Response { status: u16, body: String },
    /// No response: connect, transport or timeout failure.
    NetworkFailure,
}

/// The outcome a poll event decodes to.
pub open spec fn spec_event_outcome(event: PollEvent) -> Result<nat, PollError> {
    match event {
        PollEvent::NetworkFailure => Err(PollError::Network),
        PollEvent::Response { status, body } => spec_poll_outcome(status, body@),
    }
}

/// Decodes what one poll cycle's outbound work came back with.
pub fn decode_poll_event(event: &PollEvent) -> (r: Result<PowerValue, PollError>)
    ensures
        r matches Ok(p) ==> spec_event_outcome(*event) == Ok::<nat, PollError>(p.millis as nat),
        r matches Err(e) ==> spec_event_outcome(*event) == Err::<nat, PollError>(e),
{
    match event {
        PollEvent::NetworkFailure => Err(PollError::Network),
        PollEvent::Response { status, body } => interpret_response(*status, body.as_str()),
    }
}

/// Finishes one poll cycle: decodes the event and publishes a successful
/// reading. The registry is written exactly on success; every failure
/// leaves the previously published value in place.
pub fn process_poll_event(registry: &mut MetricRegistry, event: PollEvent) -> (r: Result<
    PowerValue,
    PollError,
>)
    ensures
        r matches Ok(p) ==> spec_event_outcome(event) == Ok::<nat, PollError>(p.millis as nat)
            && final(registry)@ == Some(p),
        r matches Err(e) ==> spec_event_outcome(event) == Err::<nat, PollError>(e)
            && final(registry)@ == old(registry)@,
{
    match decode_poll_event(&event) {
        Ok(p) => {
            registry.set(p);
            Ok(p)
        },
        Err(e) => Err(e),
    }
}

/// [`process_poll_event`] against the shared handle: one writer critical
/// section exactly on success, no lock touched on failure. What the
/// registry holds afterwards depends on concurrent writers and so is not
/// stated here; the update-on-success-only relation is the contract of
/// [`process_poll_event`].
pub fn process_poll_event_shared(registry: &SharedRegistry, event: PollEvent) -> (r: Result<
    PowerValue,
    PollError,
>)
    ensures
        r matches Ok(p) ==> spec_event_outcome(event) == Ok::<nat, PollError>(p.millis as nat),
        r matches Err(e) ==> spec_event_outcome(event) == Err::<nat, PollError>(e),
{
    match decode_poll_event(&event) {
        Ok(p) => {
            registry.set(p);
            Ok(p)
        },
        Err(e) => Err(e),
    }
}

/// The parts of the one outbound request of a poll cycle. The transport
/// sends `command` as the body of a `POST` to `url`, with `user`,
/// `password` and `cloud_id` as the `User`, `Password` and `Cloud-Id`
/// headers.
#[derive(Clone, Debug)]
pub struct TelemetryRequest {
    pub url: String,
    pub user: String,
    pub password: String,
    pub cloud_id: String,
    pub command: String,
}

/// The telemetry client: builds the poll request from its configuration
/// and decodes what comes back.
pub struct EagleClient {
    config: Eagle,
}

impl EagleClient {
    /// The configuration the client was built with.
    pub closed spec fn spec_config(&self) -> Eagle {
        self.config
    }

    pub fn new(config: Eagle) -> (c: EagleClient)
        ensures
            c.spec_config() == config,
    {
        EagleClient { config }
    }

    /// The request of one poll cycle: the fixed endpoint and command,
    /// and the three identification headers from configuration.
    pub fn request(&self) -> (r: TelemetryRequest)
        ensures
            r.url@ == "https://rainforestcloud.com:9445/cgi-bin/post_manager"@,
            r.user@ == self.spec_config().user@,
            r.password@ == self.spec_config().password@,
            r.cloud_id@ == self.spec_config().cloud_id@,
            r.command@
                == "<Command><Name>get_instantaneous_demand</Name><Format>JSON</Format></Command>"@,
    {
        TelemetryRequest {
            url: String::from_str("https://rainforestcloud.com:9445/cgi-bin/post_manager"),
            user: self.config.user.clone(),
            password: self.config.password.clone(),
            cloud_id: self.config.cloud_id.clone(),
            command: String::from_str(
                "<Command><Name>get_instantaneous_demand</Name><Format>JSON</Format></Command>",
            ),
        }
    }

    /// The fixed wait between poll cycles, from configuration.
    pub fn update_interval_secs(&self) -> (r: u32)
        ensures
            r == self.spec_config().update_interval_secs,
    {
        self.config.update_interval_secs
    }
}

} // verus!
