//! The start-up path of the configuration store.
//!
//! Loading the configuration is a short conversation with the filesystem:
//! mount it, read the file, and on the way repair what is missing. The
//! filesystem itself is out of reach of this module, so the conversation is
//! written as a machine. [`BootState::start`] names the first thing to do,
//! the caller does it and reports how it went, and [`BootState::step`] names
//! the next, until the machine holds a configuration. Whatever is reported,
//! it ends with one.

use vstd::prelude::*;
use crate::config::{default_config, nul_terminated, Config, ConfigView};
use crate::config::decode::{decode, lemma_decoded_is_terminated, ConfigError};

verus! {

/// Where the configuration file lives on the filesystem.
pub const CONFIG_PATH: &'static str = "/config.toml";

/// The longest configuration file that is read, in bytes.
pub const CONFIG_CAPACITY: usize = 4096;

/// The file written where none can be read: the compiled-in configuration as TOML.
pub const CONFIG_TEMPLATE: &'static str = "\
    [wifi]\n\
    ssid = \"Wokwi-GUEST\"\n\
    password = \"\"\n\
    channel = 6\n\
    \n\
    [net.https.ca_cert]\n\
    pem = \"\"\"\n\
    -----BEGIN CERTIFICATE-----\n\
    MIIFazCCA1OgAwIBAgIRAIIQz7DSQONZRGPgu2OCiwAwDQYJKoZIhvcNAQELBQAw\n\
    TzELMAkGA1UEBhMCVVMxKTAnBgNVBAoTIEludGVybmV0IFNlY3VyaXR5IFJlc2Vh\n\
    cmNoIEdyb3VwMRUwEwYDVQQDEwxJU1JHIFJvb3QgWDEwHhcNMTUwNjA0MTEwNDM4\n\
    WhcNMzUwNjA0MTEwNDM4WjBPMQswCQYDVQQGEwJVUzEpMCcGA1UEChMgSW50ZXJu\n\
    ZXQgU2VjdXJpdHkgUmVzZWFyY2ggR3JvdXAxFTATBgNVBAMTDElTUkcgUm9vdCBY\n\
    MTCCAiIwDQYJKoZIhvcNAQEBBQADggIPADCCAgoCggIBAK3oJHP0FDfzm54rVygc\n\
    h77ct984kIxuPOZXoHj3dcKi/vVqbvYATyjb3miGbESTtrFj/RQSa78f0uoxmyF+\n\
    0TM8ukj13Xnfs7j/EvEhmkvBioZxaUpmZmyPfjxwv60pIgbz5MDmgK7iS4+3mX6U\n\
    A5/TR5d8mUgjU+g4rk8Kb4Mu0UlXjIB0ttov0DiNewNwIRt18jA8+o+u3dpjq+sW\n\
    T8KOEUt+zwvo/7V3LvSye0rgTBIlDHCNAymg4VMk7BPZ7hm/ELNKjD+Jo2FR3qyH\n\
    B5T0Y3HsLuJvW5iB4YlcNHlsdu87kGJ55tukmi8mxdAQ4Q7e2RCOFvu396j3x+UC\n\
    B5iPNgiV5+I3lg02dZ77DnKxHZu8A/lJBdiB3QW0KtZB6awBdpUKD9jf1b0SHzUv\n\
    KBds0pjBqAlkd25HN7rOrFleaJ1/ctaJxQZBKT5ZPt0m9STJEadao0xAH0ahmbWn\n\
    OlFuhjuefXKnEgV4We0+UXgVCwOPjdAvBbI+e0ocS3MFEvzG6uBQE3xDk3SzynTn\n\
    jh8BCNAw1FtxNrQHusEwMFxIt4I7mKZ9YIqioymCzLq9gwQbooMDQaHWBfEbwrbw\n\
    qHyGO0aoSCqI3Haadr8faqU9GY/rOPNk3sgrDQoo//fb4hVC1CLQJ13hef4Y53CI\n\
    rU7m2Ys6xt0nUW7/vGT1M0NPAgMBAAGjQjBAMA4GA1UdDwEB/wQEAwIBBjAPBgNV\n\
    HRMBAf8EBTADAQH/MB0GA1UdDgQWBBR5tFnme7bl5AFzgAiIyBpY9umbbjANBgkq\n\
    hkiG9w0BAQsFAAOCAgEAVR9YqbyyqFDQDLHYGmkgJykIrGF1XIpu+ILlaS/V9lZL\n\
    ubhzEFnTIZd+50xx+7LSYK05qAvqFyFWhfFQDlnrzuBZ6brJFe+GnY+EgPbk6ZGQ\n\
    3BebYhtF8GaV0nxvwuo77x/Py9auJ/GpsMiu/X1+mvoiBOv/2X/qkSsisRcOj/KK\n\
    NFtY2PwByVS5uCbMiogziUwthDyC3+6WVwW6LLv3xLfHTjuCvjHIInNzktHCgKQ5\n\
    ORAzI4JMPJ+GslWYHb4phowim57iaztXOoJwTdwJx4nLCgdNbOhdjsnvzqvHu7Ur\n\
    TkXWStAmzOVyyghqpZXjFaH3pO3JLF+l+/+sKAIuvtd7u+Nxe5AW0wdeRlN8NwdC\n\
    jNPElpzVmbUq4JUagEiuTDkHzsxHpFKVK7q4+63SM1N95R1NbdWhscdCb+ZAJzVc\n\
    oyi3B43njTOQ5yOf+1CceWxG1bQVs5ZufpsMljq4Ui0/1lvh+wjChP4kqKOJ2qxq\n\
    4RgqsahDYVvTH9w7jXbyLeiNdd8XM2w9U/t7y0Ff/9yi0GE44Za4rF2LN9d11TPA\n\
    mRGunUHBcnWEvgJBQl9nJEiU0Zsnvgc/ubhPgXRR4Xq37Z0j4r7g1SgEEzwxA57d\n\
    emyPxgcYxn/eR44/KJ4EBs+lVDR3veyJm+kXQ99b21/+jh5Xos1AnX5iItreGCc=\n\
    -----END CERTIFICATE-----\n\
    \"\"\"\n";

/// How the machine came by the configuration it holds.
#[derive(Debug, Clone, Copy, PartialEq, Eq, Structural)]
pub enum Origin {
    /// Decoded from the stored file.
    Stored,
    /// No filesystem was found; the flash was formatted. Compiled-in values.
    Formatted,
    /// No filesystem was found and formatting failed. Compiled-in values.
    FormatFailed,
    /// The stored file is not a configuration; it was left in place. Compiled-in values.
    Rejected(ConfigError),
    /// The stored file is longer than [`CONFIG_CAPACITY`]; it was left in place. Compiled-in values.
    Oversize,
    /// The file could not be read; the template now stands in its place. Compiled-in values.
    TemplateWritten,
    /// The file could not be read, and neither could the template be written. Compiled-in values.
    TemplateLost,
}

/// What the caller is to do next.
#[derive(Debug, Clone, Copy, PartialEq, Eq, Structural)]
pub enum Action {
    /// Mount the filesystem.
    Mount,
    /// Format the flash.
    Format,
    /// Read the file at [`CONFIG_PATH`]: all of it, or, where it is longer
    /// than [`CONFIG_CAPACITY`], its first `CONFIG_CAPACITY + 1` bytes.
    Read,
    /// Write [`CONFIG_TEMPLATE`] to [`CONFIG_PATH`].
    WriteTemplate,
    /// Walk the directory tree from the root and log it.
    List,
    /// Nothing: the configuration is loaded.
    Finish,
}

/// How the action last asked for went.
#[derive(Debug, Clone, PartialEq, Eq)]
pub enum Event {
    /// It succeeded, and there is nothing to hand over.
    Done,
    /// It failed.
    Failed,
    /// The read succeeded, and these are the bytes.
    Contents(Vec<u8>),
}

/// A state of the start-up path.
#[derive(Debug, Clone, PartialEq, Eq)]
pub enum BootState {
    /// A mount has been asked for.
    Mounting,
    /// The mount failed and a format has been asked for.
    Formatting,
    /// The filesystem is mounted and a read of the file has been asked for.
    Reading,
    /// The read failed and the template is being written.
    Writing,
    /// The template was dealt with and the tree is being listed.
    Listing { written: bool },
    /// The end: a configuration, and where it came from.
    Loaded { config: Config, origin: Origin },
}

/// Mathematical value of an [`Event`].
pub enum EventView {
    Done,
    Failed,
    Contents(Seq<u8>),
}

/// Mathematical value of a [`BootState`].
pub enum BootStateView {
    Mounting,
    Formatting,
    Reading,
    Writing,
    Listing { written: bool },
    Loaded { config: ConfigView, origin: Origin },
}

impl View for Event {
    type V = EventView;

    open spec fn view(&self) -> EventView {
        match self {
            Event::Done => EventView::Done,
            Event::Failed => EventView::Failed,
            Event::Contents(bytes) => EventView::Contents(bytes@),
        }
    }
}

impl View for BootState {
    type V = BootStateView;

    open spec fn view(&self) -> BootStateView {
        match self {
            BootState::Mounting => BootStateView::Mounting,
            BootState::Formatting => BootStateView::Formatting,
            BootState::Reading => BootStateView::Reading,
            BootState::Writing => BootStateView::Writing,
            BootState::Listing { written } => BootStateView::Listing { written: *written },
            BootState::Loaded { config, origin } => BootStateView::Loaded {
                config: config@,
                origin: *origin,
            },
        }
    }
}

/// The configuration that a file of `len` bytes yields, given what its bytes
/// decode to: the decoded document where there is one and the file is not
/// too long, the compiled-in one otherwise.
pub open spec fn settled(len: nat, decoded: Result<ConfigView, ConfigError>) -> (ConfigView, Origin) {
    if len > CONFIG_CAPACITY {
        (default_config(), Origin::Oversize)
    } else {
        match decoded {
            Ok(config) => (config, Origin::Stored),
            Err(e) => (default_config(), Origin::Rejected(e)),
        }
    }
}

/// The transition function: the state that follows `state` on `event`, and
/// the action it asks for. An event that the state does not expect counts
/// as the failure of what was asked.
pub open spec fn step_spec(state: BootStateView, event: EventView) -> (BootStateView, Action) {
    match state {
        BootStateView::Mounting => match event {
            EventView::Done => (BootStateView::Reading, Action::Read),
            _ => (BootStateView::Formatting, Action::Format),
        },
        BootStateView::Formatting => {
            let origin = if event is Done {
                Origin::Formatted
            } else {
                Origin::FormatFailed
            };
            (BootStateView::Loaded { config: default_config(), origin }, Action::Finish)
        },
        BootStateView::Reading => match event {
            EventView::Contents(bytes) => {
                let (config, origin) = settled(bytes.len(), decode(bytes));
                (BootStateView::Loaded { config, origin }, Action::Finish)
            },
            _ => (BootStateView::Writing, Action::WriteTemplate),
        },
        BootStateView::Writing => (BootStateView::Listing { written: event is Done }, Action::List),
        BootStateView::Listing { written } => {
            let origin = if written {
                Origin::TemplateWritten
            } else {
                Origin::TemplateLost
            };
            (BootStateView::Loaded { config: default_config(), origin }, Action::Finish)
        },
        BootStateView::Loaded { config, origin } => (state, Action::Finish),
    }
}

/// The state reached from `state` after the events of `events`, in order.
pub open spec fn run(state: BootStateView, events: Seq<EventView>) -> BootStateView
    decreases events.len(),
{
    if events.len() == 0 {
        state
    } else {
        run(step_spec(state, events[0]).0, events.drop_first())
    }
}

/// How many more events a state can take before the machine is done.
pub open spec fn remaining(state: BootStateView) -> nat {
    match state {
        BootStateView::Mounting => 4,
        BootStateView::Reading => 3,
        BootStateView::Writing => 2,
        BootStateView::Formatting => 1,
        BootStateView::Listing { .. } => 1,
        BootStateView::Loaded { .. } => 0,
    }
}

/// True when the configuration that a state holds, if it holds one,
/// carries a certificate that ends in its NUL.
pub open spec fn usable(state: BootStateView) -> bool {
    state matches BootStateView::Loaded { config, .. } ==> nul_terminated(config.ca_cert)
}

/// Settles what a file of `len` bytes yields once its bytes have been decoded.
pub fn settle(len: usize, decoded: Result<Config, ConfigError>) -> (loaded: (Config, Origin))
    ensures
        (decoded matches Ok(config) ==> config.wf()) ==> loaded.0.wf(),
        (loaded.0@, loaded.1) == settled(
            len as nat,
            match decoded {
                Ok(config) => Ok(config@),
                Err(e) => Err(e),
            },
        ),
{
    if len > CONFIG_CAPACITY {
        (Config::default(), Origin::Oversize)
    } else {
        match decoded {
            Ok(config) => (config, Origin::Stored),
            Err(e) => (Config::default(), Origin::Rejected(e)),
        }
    }
}

impl BootState {
    /// True when a loaded configuration carries a usable certificate.
    pub open spec fn wf(&self) -> bool {
        self matches BootState::Loaded { config, .. } ==> config.wf()
    }

    /// The state in which the machine begins, and the first action.
    pub fn start() -> (begin: (BootState, Action))
        ensures
            begin.0@ == BootStateView::Mounting,
            begin.1 == Action::Mount,
            begin.0.wf(),
    {
        (BootState::Mounting, Action::Mount)
    }

    /// Takes the report of the last action and names the next.
    pub fn step(self, event: Event) -> (next: (BootState, Action))
        ensures
            (next.0@, next.1) == step_spec(self@, event@),
            self.wf() ==> next.0.wf(),
    {
        match self {
            BootState::Mounting => match event {
                Event::Done => (BootState::Reading, Action::Read),
                _ => (BootState::Formatting, Action::Format),
            },
            BootState::Formatting => {
                let origin = match event {
                    Event::Done => Origin::Formatted,
                    _ => Origin::FormatFailed,
                };
                (BootState::Loaded { config: Config::default(), origin }, Action::Finish)
            },
            BootState::Reading => match event {
                Event::Contents(bytes) => {
                    let len = bytes.len();
                    let decoded = if len > CONFIG_CAPACITY {
                        Err(ConfigError::Syntax)
                    } else {
                        Config::from_toml(bytes.as_slice())
                    };
                    let (config, origin) = settle(len, decoded);
                    (BootState::Loaded { config, origin }, Action::Finish)
                },
                _ => (BootState::Writing, Action::WriteTemplate),
            },
            BootState::Writing => {
                let written = match event {
                    Event::Done => true,
                    _ => false,
                };
                (BootState::Listing { written }, Action::List)
            },
            BootState::Listing { written } => {
                let origin = if written {
                    Origin::TemplateWritten
                } else {
                    Origin::TemplateLost
                };
                (BootState::Loaded { config: Config::default(), origin }, Action::Finish)
            },
            BootState::Loaded { config, origin } => (
                BootState::Loaded { config, origin },
                Action::Finish,
            ),
        }
    }

    /// The loaded configuration, once there is one.
    pub fn config(&self) -> (loaded: Option<&Config>)
        ensures
            match self {
                BootState::Loaded { config, .. } => loaded == Some(config),
                _ => loaded is None,
            },
    {
        match self {
            BootState::Loaded { config, .. } => Some(config),
            _ => None,
        }
    }
}

/// Every event brings the machine nearer its end: no report, true or false,
/// keeps it from reaching a configuration.
pub proof fn lemma_step_advances(state: BootStateView, event: EventView)
    requires
        !(state is Loaded),
    ensures
        remaining(step_spec(state, event).0) < remaining(state),
{
}

/// After as many events as a state has remaining, whatever they are, the
/// machine holds a configuration. From the start that is four.
pub proof fn lemma_run_ends_loaded(state: BootStateView, events: Seq<EventView>)
    requires
        events.len() >= remaining(state),
    ensures
        run(state, events) is Loaded,
    decreases events.len(),
{
    if events.len() > 0 {
        if !(state is Loaded) {
            lemma_step_advances(state, events[0]);
        }
        lemma_run_ends_loaded(step_spec(state, events[0]).0, events.drop_first());
    }
}

/// A loaded configuration is never replaced: later events change nothing.
pub proof fn lemma_loaded_is_final(state: BootStateView, events: Seq<EventView>)
    requires
        state is Loaded,
    ensures
        run(state, events) == state,
    decreases events.len(),
{
    if events.len() > 0 {
        lemma_loaded_is_final(state, events.drop_first());
    }
}

/// Whatever the machine settles on carries a certificate that ends in its
/// NUL: a caller never gets a document that the TLS layer cannot use.
pub proof fn lemma_loaded_is_usable(state: BootStateView, events: Seq<EventView>)
    requires
        usable(state),
    ensures
        usable(run(state, events)),
    decreases events.len(),
{
    if events.len() > 0 {
        if let EventView::Contents(bytes) = events[0] {
            lemma_decoded_is_terminated(bytes);
        }
        lemma_loaded_is_usable(step_spec(state, events[0]).0, events.drop_first());
    }
}

/// The file is written in one case only: the read was asked for and did not
/// hand over any bytes. A file that was read, whatever it holds, is left as
/// it is on flash.
pub proof fn lemma_write_only_after_failed_read(state: BootStateView, event: EventView)
    ensures
        step_spec(state, event).1 == Action::WriteTemplate <==> state is Reading && !(event is Contents),
{
}

/// The flash is formatted in one case only: the mount was asked for and did
/// not succeed.
pub proof fn lemma_format_only_after_failed_mount(state: BootStateView, event: EventView)
    ensures
        step_spec(state, event).1 == Action::Format <==> state is Mounting && !(event is Done),
{
}

/// On flash without a filesystem the machine formats it and settles on the
/// compiled-in configuration, whether or not the format succeeds.
pub proof fn lemma_unformatted_flash_boots_default(format: EventView)
    ensures
        run(BootStateView::Mounting, seq![EventView::Failed, format]) matches BootStateView::Loaded {
            config,
            origin,
        } && config == default_config() && origin == (if format is Done {
            Origin::Formatted
        } else {
            Origin::FormatFailed
        }),
{
    reveal_with_fuel(run, 3);
}

/// On a mounted filesystem a stored file of at most [`CONFIG_CAPACITY`]
/// bytes that decodes is what the machine settles on; one that does not
/// decode, or is longer, yields the compiled-in configuration.
pub proof fn lemma_stored_file_decides(bytes: Seq<u8>)
    ensures
        run(BootStateView::Mounting, seq![EventView::Done, EventView::Contents(bytes)]) matches BootStateView::Loaded {
            config,
            origin,
        } && (config, origin) == settled(bytes.len(), decode(bytes)),
{
    reveal_with_fuel(run, 3);
}

/// Where the file cannot be read, the template is written, the tree is
/// listed, and the machine settles on the compiled-in configuration.
pub proof fn lemma_missing_file_boots_default(write: EventView, list: EventView)
    ensures
        step_spec(BootStateView::Reading, EventView::Failed) == (
            BootStateView::Writing,
            Action::WriteTemplate,
        ),
        step_spec(BootStateView::Writing, write).1 == Action::List,
        run(BootStateView::Reading, seq![EventView::Failed, write, list]) matches BootStateView::Loaded {
            config,
            origin,
        } && config == default_config() && origin == (if write is Done {
            Origin::TemplateWritten
        } else {
            Origin::TemplateLost
        }),
{
    reveal_with_fuel(run, 4);
}

} // verus!
