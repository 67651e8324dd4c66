//! The controller side. An `EnvInjector` is one session's worth of state:
//! the one-time secret and the control-socket path, both minted while the
//! child's launch is being prepared. It computes the launch environment the
//! child must start under, frames mutation requests, and interprets the
//! agent's status word; the unverified rim around the library materializes
//! the agent artifact, spawns the child and moves the bytes over the socket.

use vstd::prelude::*;
use vstd::string::*;
use vstd::utf8::{is_ascii_chars, is_ascii_chars_encode_utf8};

use rand::Rng;
use rand::SeedableRng;

use crate::agent::{env_after_set, lemma_request_round_trip, parse_request_spec, RequestStep};
use crate::protocol::{
    encode_request, component_ok, request_encoding, valid_component, PASSWORD_LEN, STATUS_OK,
};

verus! {

/// How a session or a mutation call failed. Callers branch on the variant;
/// `describe` gives the human-readable message.
#[derive(Debug, Clone, Copy, PartialEq, Eq, Structural)]
pub enum Error {
    /// The agent artifact could not be materialized or the child's launch
    /// environment could not be prepared. Raised only by the unverified rim,
    /// before any child exists.
    Setup,
    /// The key or the value holds an embedded terminator byte. Raised before
    /// any connection is attempted.
    Validation,
    /// The control endpoint never became reachable within the retry budget.
    Connectivity,
    /// The connection closed without a well-formed response. Covers an
    /// authentication rejection and a malformed frame indistinguishably, by
    /// design.
    Protocol,
    /// The agent processed the request but the native mutation failed inside
    /// the child; `code` is the operating-system error code it reported.
    Mutation { code: i32 },
}

impl Error {
    /// A fixed description of the failure kind.
    pub fn describe(&self) -> (r: &'static str)
        ensures
            r@.len() > 0,
    {
        let r: &'static str = match self {
            Error::Setup => "could not set up the injection session",
            Error::Validation => "key or value contains a terminator byte",
            Error::Connectivity => "could not dial control socket",
            Error::Protocol => "connection closed without a response",
            Error::Mutation { .. } => "setting env failed inside the child",
        };
        proof {
            reveal_strlit("could not set up the injection session");
            reveal_strlit("key or value contains a terminator byte");
            reveal_strlit("could not dial control socket");
            reveal_strlit("connection closed without a response");
            reveal_strlit("setting env failed inside the child");
        }
        r
    }
}

/// One alphanumeric ASCII character: what the session secret is made of.
pub open spec fn is_alphanumeric_char(c: char) -> bool {
    ||| '0' <= c && c <= '9'
    ||| 'A' <= c && c <= 'Z'
    ||| 'a' <= c && c <= 'z'
}

/// The bytes of an ASCII string, character for character.
pub open spec fn ascii_bytes(s: Seq<char>) -> Seq<u8> {
    s.map_values(|c: char| c as u8)
}

/// Relies on rand: `StdRng::from_entropy` seeds a cryptographically secure
/// generator from the operating system, and the `Alphanumeric` distribution
/// draws only ASCII letters and digits. So the result has exactly the asked
/// length and is alphanumeric throughout; nothing more is assumed of it,
/// since the characters are random.
#[verifier::external_body]
fn random_alphanumeric_string(len: usize) -> (r: String)
    ensures
        r@.len() == len as nat,
        forall|i: int| 0 <= i < r@.len() ==> is_alphanumeric_char(#[trigger] r@[i]),
{
    let rng = rand::rngs::StdRng::from_entropy();
    rng.sample_iter(&rand::distributions::Alphanumeric).take(len).map(char::from).collect()
}

/// A handle that can be used to inject environment variables into a running
/// subprocess: the per-session secret and the control-socket path the agent
/// will listen on.
pub struct EnvInjector {
    control_sock: String,
    password: String,
}

impl EnvInjector {
    /// The control-socket path, as characters.
    pub closed spec fn spec_control_sock(&self) -> Seq<char> {
        self.control_sock@
    }

    /// The session secret, as characters.
    pub closed spec fn spec_password(&self) -> Seq<char> {
        self.password@
    }

    /// The session secret, as the raw bytes that cross the wire.
    pub open spec fn secret_bytes(&self) -> Seq<u8> {
        ascii_bytes(self.spec_password())
    }

    /// Session invariant: the secret has the fixed length both sides agree
    /// on and is alphanumeric, hence ASCII and free of terminator bytes.
    pub open spec fn wf(&self) -> bool {
        &&& self.spec_password().len() == PASSWORD_LEN
        &&& forall|i: int|
            0 <= i < self.spec_password().len() ==> is_alphanumeric_char(
                #[trigger] self.spec_password()[i],
            )
    }

    /// Mints a session for a child about to be launched: a fresh one-time
    /// secret and a control-socket path unique to this session, inside the
    /// session's private directory, so concurrent children cannot collide.
    pub fn new(session_dir: &str) -> (r: EnvInjector)
        ensures
            r.wf(),
            r.spec_control_sock() == session_dir@ + "/control.socket"@,
    {
        let password = random_alphanumeric_string(PASSWORD_LEN);
        let control_sock = String::from_str(session_dir).concat("/control.socket");
        EnvInjector { control_sock, password }
    }

    /// The control-socket path the agent will bind and the controller dials.
    pub fn control_sock(&self) -> (r: &str)
        ensures
            r@ == self.spec_control_sock(),
    {
        self.control_sock.as_str()
    }

    /// The session secret. Only the session owner holds this value; it also
    /// travels to the child through the child's own launch environment.
    pub fn password(&self) -> (r: &str)
        ensures
            r@ == self.spec_password(),
    {
        self.password.as_str()
    }

    /// The three launch-environment assignments the child must start under:
    /// the loader-override variable pointing at the agent artifact, the
    /// control-socket path, and the one-time secret. Applying them to the
    /// child's launch configuration is all the bootstrap there is.
    pub fn launch_env(&self, shim_path: &str) -> (r: Vec<(String, String)>)
        ensures
            r@.len() == 3,
            r@[0].0@ == preload_env_name() && r@[0].1@ == shim_path@,
            r@[1].0@ == control_sock_env_name() && r@[1].1@ == self.spec_control_sock(),
            r@[2].0@ == password_env_name() && r@[2].1@ == self.spec_password(),
    {
        let mut r: Vec<(String, String)> = Vec::new();
        r.push((String::from_str(preload_env_var()), String::from_str(shim_path)));
        r.push((String::from_str(control_sock_env_var()), self.control_sock.clone()));
        r.push((String::from_str(password_env_var()), self.password.clone()));
        r
    }

    /// Frames one mutation request, validating the key and the value first:
    /// a component with an embedded terminator byte (or one beyond the
    /// protocol's size bound) is rejected here, before any connection is
    /// attempted, so no invalid request ever reaches the wire.
    pub fn request_bytes(&self, key: &str, value: &str) -> (r: Result<Vec<u8>, Error>)
        requires
            self.wf(),
        ensures
            match r {
                Ok(bytes) => valid_component(key.spec_bytes()) && valid_component(
                    value.spec_bytes(),
                ) && bytes@ == request_encoding(
                    self.secret_bytes(),
                    key.spec_bytes(),
                    value.spec_bytes(),
                ),
                Err(e) => e == Error::Validation && !(valid_component(key.spec_bytes())
                    && valid_component(value.spec_bytes())),
            },
    {
        let kb = key.as_bytes();
        let vb = value.as_bytes();
        if !component_ok(kb) {
            return Err(Error::Validation);
        }
        if !component_ok(vb) {
            return Err(Error::Validation);
        }
        let pw = self.password.as_str().as_bytes();
        proof {
            assert(is_ascii_chars(self.password@));
            is_ascii_chars_encode_utf8(self.password@);
            assert(pw@ =~= self.secret_bytes());
        }
        Ok(encode_request(pw, kb, vb))
    }
}

/// Turns the agent's status word into the call's result: zero is success,
/// anything else is a mutation failure carrying that code.
pub fn interpret_status(status: i32) -> (r: Result<(), Error>)
    ensures
        status == STATUS_OK ==> r == Ok::<(), Error>(()),
        status != STATUS_OK ==> r == Err::<(), Error>(Error::Mutation { code: status }),
{
    if status == STATUS_OK {
        Ok(())
    } else {
        Err(Error::Mutation { code: status })
    }
}

/// The decision that ends one `set` call, over everything the outside world
/// answered: whether any dialing attempt connected within the retry budget,
/// and if so what came back on the channel — a status word, or a close with
/// no well-formed response. Exhausted retries are a connectivity failure; a
/// response-less close is a protocol failure (an authentication rejection
/// and a malformed frame look identical here, by design); a status word
/// decides between success and a mutation failure carrying the code.
pub fn set_result(connected: bool, response: Option<i32>) -> (r: Result<(), Error>)
    ensures
        !connected ==> r == Err::<(), Error>(Error::Connectivity),
        connected && response is None ==> r == Err::<(), Error>(Error::Protocol),
        connected && response == Some(STATUS_OK) ==> r == Ok::<(), Error>(()),
        connected && (response matches Some(status) && status != STATUS_OK) ==> r == Err::<
            (),
            Error,
        >(Error::Mutation { code: response->Some_0 }),
{
    if !connected {
        return Err(Error::Connectivity);
    }
    match response {
        None => Err(Error::Protocol),
        Some(status) => interpret_status(status),
    }
}

/// Name of the loader-override launch variable the platform's dynamic
/// loader consumes.
pub open spec fn preload_env_name() -> Seq<char> {
    "LD_PRELOAD"@
}

/// Name of the launch variable carrying the control-socket path.
pub open spec fn control_sock_env_name() -> Seq<char> {
    "SUBPROCESS_INJECT_ENV__ARG__CONTROL_SOCK"@
}

/// Name of the launch variable carrying the one-time secret.
pub open spec fn password_env_name() -> Seq<char> {
    "SUBPROCESS_INJECT_ENV__ARG__PASSWORD"@
}

/// The loader-override variable's name.
pub fn preload_env_var() -> (r: &'static str)
    ensures
        r@ == preload_env_name(),
{
    "LD_PRELOAD"
}

/// The control-socket variable's name.
pub fn control_sock_env_var() -> (r: &'static str)
    ensures
        r@ == control_sock_env_name(),
{
    "SUBPROCESS_INJECT_ENV__ARG__CONTROL_SOCK"
}

/// The secret variable's name.
pub fn password_env_var() -> (r: &'static str)
    ensures
        r@ == password_env_name(),
{
    "SUBPROCESS_INJECT_ENV__ARG__PASSWORD"
}

/// Law: for any valid key and value, the request a well-formed session
/// frames is parsed by an agent holding the same secret as exactly that
/// mutation, and once the agent applies it the child's own environment read
/// of the key yields the new value.
pub proof fn lemma_set_is_observed(
    session: EnvInjector,
    key: Seq<u8>,
    value: Seq<u8>,
    env: Map<Seq<u8>, Seq<u8>>,
)
    requires
        session.wf(),
        valid_component(key),
        valid_component(value),
    ensures
        parse_request_spec(
            session.secret_bytes(),
            request_encoding(session.secret_bytes(), key, value),
        ) == (RequestStep::Mutate { key, value }),
        env_after_set(env, key, value)[key] == value,
{
    assert(session.secret_bytes().len() == PASSWORD_LEN);
    lemma_request_round_trip(session.secret_bytes(), key, value);
}

} // verus!
