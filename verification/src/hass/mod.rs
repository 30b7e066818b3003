//! The requests that read and change the state of remote devices.

pub mod attributes;
pub mod home_assistant;
pub mod state;

pub use attributes::{Attributes, Decimal, Value};
pub use home_assistant::{HomeAssistant, HomeAssistantConfiguration};
pub use state::State;

use attributes::ValueView;
use home_assistant::{service_path, state_path, BodyView, Method, Request, RequestView, MAX_URL_TEXT};
use state::StateView;
use vstd::prelude::*;
use vstd::std_specs::convert::FromSpecImpl;

verus! {

/// Why a request to the remote-state service failed.
#[derive(Debug)]
pub enum Error {
    HomeAssistant(home_assistant::Error),
}

impl From<home_assistant::Error> for Error {
    fn from(e: home_assistant::Error) -> (error: Error) {
        Error::HomeAssistant(e)
    }
}

impl FromSpecImpl<home_assistant::Error> for Error {
    open spec fn obeys_from_spec() -> bool {
        true
    }

    open spec fn from_spec(e: home_assistant::Error) -> Error {
        Error::HomeAssistant(e)
    }
}

/// The domain of the thermostats.
pub open spec fn climate_domain() -> Seq<char> {
    "climate"@
}

/// The service that sets the temperature a thermostat holds.
pub open spec fn set_temperature_service() -> Seq<char> {
    "set_temperature"@
}

/// The attributes of a call that sets `entity` to `temperature`.
pub open spec fn temperature_attributes(entity: Seq<char>, temperature: Decimal) -> Map<
    Seq<char>,
    ValueView,
> {
    Map::empty().insert("entity_id"@, ValueView::Text(entity)).insert(
        "temperature"@,
        ValueView::Decimal(temperature),
    )
}

/// A remote-state service: it says, for each operation, the request to send.
/// Sending it and reading the answer is left to whoever holds the
/// connection.
pub trait Hass {
    /// Whether the service is able to build its URLs.
    spec fn ready(&self) -> bool;

    /// The URL of the given path at the service.
    spec fn endpoint(&self, path: Seq<Seq<char>>) -> Seq<char>;

    /// The request that reads the state `name`.
    fn get_state(&self, name: &str) -> (request: Request)
        requires
            self.ready(),
            name@.len() <= MAX_URL_TEXT,
        ensures
            request@ == (RequestView {
                method: Method::Get,
                url: self.endpoint(state_path(name@)),
                body: BodyView::Empty,
            }),
    ;

    /// The request that sets the state `name` to the given attributes.
    fn set_state(&self, name: &str, attributes: Attributes) -> (request: Request)
        requires
            self.ready(),
            name@.len() <= MAX_URL_TEXT,
        ensures
            request@ == (RequestView {
                method: Method::Post,
                url: self.endpoint(state_path(name@)),
                body: BodyView::State(StateView { name: name@, attributes: Some(attributes@) }),
            }),
    ;

    /// The request that calls the service `name` of `domain`, with the
    /// attributes if there are any.
    fn call_service(&self, domain: &str, name: &str, attributes: Option<Attributes>) -> (request:
        Request)
        requires
            self.ready(),
            domain@.len() <= MAX_URL_TEXT,
            name@.len() <= MAX_URL_TEXT,
        ensures
            request@ == (RequestView {
                method: Method::Post,
                url: self.endpoint(service_path(domain@, name@)),
                body: match attributes {
                    Some(a) => BodyView::Attributes(a@),
                    None => BodyView::Empty,
                },
            }),
    ;
}

/// The request that sets the thermostat `entity` to `temperature`.
pub fn set_temperature<H: Hass>(hass: &H, entity: &str, temperature: Decimal) -> (request: Request)
    requires
        hass.ready(),
    ensures
        request@ == (RequestView {
            method: Method::Post,
            url: hass.endpoint(service_path(climate_domain(), set_temperature_service())),
            body: BodyView::Attributes(temperature_attributes(entity@, temperature)),
        }),
{
    proof {
        reveal_strlit("climate");
        reveal_strlit("set_temperature");
    }
    let attributes = Attributes::new().set("entity_id", Value::Text(entity.to_owned())).set(
        "temperature",
        Value::Decimal(temperature),
    );
    hass.call_service("climate", "set_temperature", Some(attributes))
}

} // verus!
