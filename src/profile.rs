//! The connection profile that the form edits: the address and port fields and
//! the port validation message.
use vstd::prelude::*;
use crate::command::{build_command, can_build, command_of, endpoint_of, CommandResult};
use crate::port::{is_digit, is_valid_port, port_error_message, port_error_text, port_is_valid};
use crate::store::{file_after_save, lemma_save_then_load, loaded, loaded_value, opt_view, opt_view_string, saved_text, saved_text_of};

verus! {

/// The form's state. `port_error` is empty while the port last validated
/// was accepted, and holds the fixed message otherwise.
pub struct Profile {
    pub address: String,
    pub port: String,
    pub port_error: String,
}

/// The validation message after validating `port`.
pub open spec fn error_after(port: Seq<char>) -> Seq<char> {
    if port_is_valid(port) {
        Seq::empty()
    } else {
        port_error_text()
    }
}

/// After a build succeeds, saving the address and a non-empty port and then
/// loading them back gives the same two values, whatever the files held before
/// and whatever the fields held at the load. The address holds no line feed
/// and does not end in a carriage return.
pub proof fn lemma_build_then_reload(
    address: Seq<char>,
    port: Seq<char>,
    prior_address: Option<Seq<char>>,
    prior_port: Option<Seq<char>>,
    current_address: Seq<char>,
    current_port: Seq<char>,
)
    requires
        can_build(address, port),
        port.len() > 0,
        forall|i: int| 0 <= i < address.len() ==> #[trigger] address[i] != '\n',
        address.last() != '\r',
    ensures
        loaded_value(current_address, file_after_save(prior_address, address)) == address,
        loaded_value(current_port, file_after_save(prior_port, port)) == port,
{
    assert(is_digit(port[port.len() - 1]));
    assert forall|i: int| 0 <= i < port.len() implies #[trigger] port[i] != '\n' by {
        assert(is_digit(port[i]));
    }
    lemma_save_then_load(prior_address, current_address, address);
    lemma_save_then_load(prior_port, current_port, port);
}

impl Profile {
    /// An empty profile, as at start-up before anything is loaded.
    pub fn new() -> (r: Profile)
        ensures
            r.address@.len() == 0,
            r.port@.len() == 0,
            r.port_error@.len() == 0,
    {
        Profile { address: String::new(), port: String::new(), port_error: String::new() }
    }

    /// Validates the port field: clears the message where it is empty or
    /// digits only, and sets the fixed message otherwise.
    pub fn validate_port(&mut self) -> (r: bool)
        ensures
            r == port_is_valid(old(self).port@),
            final(self).port_error@ == error_after(old(self).port@),
            final(self).address == old(self).address,
            final(self).port == old(self).port,
    {
        if is_valid_port(self.port.as_str()) {
            self.port_error = String::new();
            true
        } else {
            self.port_error = port_error_message();
            false
        }
    }

    /// Validates the port, then builds the command where the address is
    /// non-empty and the port accepted. The fields stay as they are.
    pub fn build_command(&mut self) -> (r: Option<CommandResult>)
        ensures
            r is Some <==> can_build(old(self).address@, old(self).port@),
            r matches Some(c) ==> c.command_text@ == command_of(old(self).address@, old(self).port@)
                && c.local_endpoint@ == endpoint_of(old(self).port@),
            final(self).port_error@ == error_after(old(self).port@),
            final(self).address == old(self).address,
            final(self).port == old(self).port,
    {
        self.validate_port();
        build_command(self.address.as_str(), self.port.as_str())
    }

    /// Loads the address field from its file's text (`None`: missing or
    /// unreadable); an empty file leaves the field as it was.
    pub fn load_address(&mut self, file_text: Option<&str>)
        ensures
            final(self).address@ == loaded_value(old(self).address@, opt_view(file_text)),
            final(self).port == old(self).port,
            final(self).port_error == old(self).port_error,
    {
        self.address = loaded(self.address.as_str(), file_text);
    }

    /// Loads the port field from its file's text, as `load_address` does.
    pub fn load_port(&mut self, file_text: Option<&str>)
        ensures
            final(self).port@ == loaded_value(old(self).port@, opt_view(file_text)),
            final(self).address == old(self).address,
            final(self).port_error == old(self).port_error,
    {
        self.port = loaded(self.port.as_str(), file_text);
    }

    /// The text to write to the address file, or `None` to leave it as is.
    pub fn save_address(&self) -> (r: Option<String>)
        ensures
            opt_view_string(&r) == saved_text_of(self.address@),
    {
        saved_text(self.address.as_str())
    }

    /// The text to write to the port file, or `None` to leave it as is.
    pub fn save_port(&self) -> (r: Option<String>)
        ensures
            opt_view_string(&r) == saved_text_of(self.port@),
    {
        saved_text(self.port.as_str())
    }
}

} // verus!
