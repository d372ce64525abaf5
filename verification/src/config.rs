//! The client's settings.

use vstd::prelude::*;
use vstd::string::StringExecFns;

verus! {

pub const DEFAULT_SERVER_ADDRESS: &'static str = "127.0.0.1:21117";

/// The id of a device that has no name at all.
pub const UNKNOWN_DEVICE: &'static str = "unknown";

/// What a viewer adds to the id of its device, so that it can be told apart from
/// the service on the same device.
pub const VIEWER_SUFFIX: &'static str = "-gui";

/// What the client is told by its settings file.
#[derive(Debug, Clone)]
pub struct ClientConfig {
    pub server: ServerConfig,
    pub device: DeviceConfig,
}

/// The relay to connect to.
#[derive(Debug, Clone)]
pub struct ServerConfig {
    pub address: String,
}

/// This device.
#[derive(Debug, Clone)]
pub struct DeviceConfig {
    /// The id to register under; the name of the machine when it is blank.
    pub id: String,
    /// The shared key as hexadecimal text.
    pub pre_shared_key: String,
}

/// Why the settings cannot be used.
#[derive(Debug, Clone, Copy, PartialEq, Eq, Structural)]
pub enum ConfigError {
    NoKey,
    NoTarget,
}

/// What a service needs to begin.
#[derive(Debug, Clone)]
pub struct ServicePlan {
    pub server_address: String,
    pub device_id: String,
    pub pre_shared_key: String,
}

/// What a viewer needs to begin.
#[derive(Debug, Clone)]
pub struct ViewerPlan {
    pub server_address: String,
    pub device_id: String,
    pub pre_shared_key: String,
    pub target_device_id: String,
}

/// How the client runs.
#[derive(Debug, Clone, Copy, PartialEq, Eq, Structural)]
pub enum Mode {
    /// In the background, serving this desktop.
    Service,
    /// With a window, showing another desktop.
    Gui,
}

/// The characters that Unicode calls white space.
pub open spec fn is_white_space(c: char) -> bool {
    ||| 0x9 <= c as int <= 0xD
    ||| c as int == 0x20
    ||| c as int == 0x85
    ||| c as int == 0xA0
    ||| c as int == 0x1680
    ||| 0x2000 <= c as int <= 0x200A
    ||| c as int == 0x2028
    ||| c as int == 0x2029
    ||| c as int == 0x202F
    ||| c as int == 0x205F
    ||| c as int == 0x3000
}

/// Whether `inner` is `text` without the white space at both ends.
pub open spec fn is_trimmed(text: Seq<char>, inner: Seq<char>) -> bool {
    exists|a: int, b: int| #[trigger] trims(text, a, b) && inner == text.subrange(a, b)
}

/// Whether `text` has only white space before `a` and from `b` on, and begins and
/// ends with something else in between, if there is anything in between.
pub open spec fn trims(text: Seq<char>, a: int, b: int) -> bool {
    &&& 0 <= a <= b <= text.len()
    &&& forall|i: int| 0 <= i < a ==> is_white_space(#[trigger] text[i])
    &&& forall|i: int| b <= i < text.len() ==> is_white_space(#[trigger] text[i])
    &&& a < b ==> !is_white_space(text[a]) && !is_white_space(text[b - 1])
}

/// `str::trim`: the text without the white space at both ends.
#[verifier::external_body]
fn trim(text: &str) -> (inner: &str)
    ensures
        is_trimmed(text@, inner@),
{
    text.trim()
}

/// Whether a text is nothing but white space.
pub open spec fn is_blank(text: Seq<char>) -> bool {
    forall|i: int| 0 <= i < text.len() ==> is_white_space(#[trigger] text[i])
}

/// Two ways to trim a text leave the same.
proof fn lemma_trimmed_is_unique(text: Seq<char>, x: Seq<char>, y: Seq<char>)
    requires
        is_trimmed(text, x),
        is_trimmed(text, y),
    ensures
        x == y,
        x.len() == 0 <==> is_blank(text),
{
    let (a, b): (int, int) = choose|a: int, b: int| #[trigger]
        trims(text, a, b) && x == text.subrange(a, b);
    let (c, d): (int, int) = choose|c: int, d: int| #[trigger]
        trims(text, c, d) && y == text.subrange(c, d);
    if a < b {
        assert(!is_white_space(text[a]));
        assert(!is_white_space(text[b - 1]));
    }
    if c < d {
        assert(!is_white_space(text[c]));
        assert(!is_white_space(text[d - 1]));
    }
    assert(x =~= y);
}

/// Whether `id` is the id of a device: the configured one without the white space
/// around it, or, if that leaves nothing, the first name that the machine has.
pub open spec fn is_device_id(
    id: Seq<char>,
    configured: Seq<char>,
    computer_name: Option<String>,
    host_name: Option<String>,
) -> bool {
    if is_blank(configured) {
        match (computer_name, host_name) {
            (Some(name), _) => id == name@,
            (None, Some(name)) => id == name@,
            (None, None) => id == UNKNOWN_DEVICE@,
        }
    } else {
        is_trimmed(configured, id)
    }
}

/// Whether settings are those of a client that has no settings file.
pub open spec fn is_default(config: ClientConfig) -> bool {
    &&& config.server.address@ == DEFAULT_SERVER_ADDRESS@
    &&& config.device.id@.len() == 0
    &&& config.device.pre_shared_key@.len() == 0
}

/// What becomes of what was found in place of a settings file: settings, no file, or
/// something that cannot be read as settings.
pub open spec fn loads<E>(
    found: Result<Option<ClientConfig>, E>,
    r: Result<(ClientConfig, bool), E>,
) -> bool {
    match found {
        Ok(Some(config)) => r == Ok::<(ClientConfig, bool), E>((config, false)),
        Ok(None) => r matches Ok((config, save)) && is_default(config) && save,
        Err(e) => r == Err::<(ClientConfig, bool), E>(e),
    }
}

/// What a service begins with: it needs a key.
pub open spec fn plans_service(
    config: ClientConfig,
    computer_name: Option<String>,
    host_name: Option<String>,
    r: Result<ServicePlan, ConfigError>,
) -> bool {
    &&& r is Ok <==> config.device.pre_shared_key@.len() > 0
    &&& match r {
        Ok(plan) => {
            &&& plan.server_address == config.server.address
            &&& is_device_id(plan.device_id@, config.device.id@, computer_name, host_name)
            &&& plan.pre_shared_key == config.device.pre_shared_key
        },
        Err(e) => e == ConfigError::NoKey,
    }
}

/// What a viewer begins with: it needs a key and a device to show.
pub open spec fn plans_viewer(
    config: ClientConfig,
    computer_name: Option<String>,
    host_name: Option<String>,
    target_device_id: String,
    r: Result<ViewerPlan, ConfigError>,
) -> bool {
    &&& r is Ok <==> config.device.pre_shared_key@.len() > 0 && target_device_id@.len() > 0
    &&& match r {
        Ok(plan) => {
            &&& plan.server_address == config.server.address
            &&& exists|id: Seq<char>| #[trigger]
                is_device_id(id, config.device.id@, computer_name, host_name) && plan.device_id@
                    == id + VIEWER_SUFFIX@
            &&& plan.pre_shared_key == config.device.pre_shared_key
            &&& plan.target_device_id == target_device_id
        },
        Err(ConfigError::NoKey) => config.device.pre_shared_key@.len() == 0,
        Err(ConfigError::NoTarget) => config.device.pre_shared_key@.len() > 0,
    }
}

impl ClientConfig {
    /// The settings of a client that has no settings file.
    pub fn default_config() -> (config: Self)
        ensures
            is_default(config),
    {
        ClientConfig {
            server: ServerConfig { address: DEFAULT_SERVER_ADDRESS.to_owned() },
            device: DeviceConfig { id: String::new(), pre_shared_key: String::new() },
        }
    }

    /// The settings that were found, or those of a client that has no file; and
    /// whether they have to be written to the file. A file that is there but cannot be
    /// read as settings is left as it is.
    pub fn load<E>(found: Result<Option<ClientConfig>, E>) -> (r: Result<(ClientConfig, bool), E>)
        ensures
            loads(found, r),
    {
        match found {
            Ok(Some(config)) => Ok((config, false)),
            Ok(None) => Ok((Self::default_config(), true)),
            Err(e) => Err(e),
        }
    }

    /// The id of this device. The two names are those that the machine has under
    /// `COMPUTERNAME` and `HOSTNAME`.
    pub fn resolve_device_id(
        &self,
        computer_name: Option<String>,
        host_name: Option<String>,
    ) -> (id: String)
        ensures
            is_device_id(id@, self.device.id@, computer_name, host_name),
    {
        let id = trim(self.device.id.as_str());
        proof {
            lemma_trimmed_is_unique(self.device.id@, id@, id@);
        }
        if id.is_empty() {
            match computer_name {
                Some(name) => name,
                None => match host_name {
                    Some(name) => name,
                    None => UNKNOWN_DEVICE.to_owned(),
                },
            }
        } else {
            id.to_owned()
        }
    }

    /// What a service needs to begin, if the settings name a key.
    pub fn service_plan(&self, computer_name: Option<String>, host_name: Option<String>) -> (r:
        Result<ServicePlan, ConfigError>)
        ensures
            plans_service(*self, computer_name, host_name, r),
    {
        let device_id = self.resolve_device_id(computer_name, host_name);
        if self.device.pre_shared_key.as_str().is_empty() {
            return Err(ConfigError::NoKey);
        }
        Ok(
            ServicePlan {
                server_address: self.server.address.clone(),
                device_id,
                pre_shared_key: self.device.pre_shared_key.clone(),
            },
        )
    }

    /// What a viewer needs to begin, if the settings name a key and a device to show.
    pub fn viewer_plan(
        &self,
        computer_name: Option<String>,
        host_name: Option<String>,
        target_device_id: String,
    ) -> (r: Result<ViewerPlan, ConfigError>)
        ensures
            plans_viewer(*self, computer_name, host_name, target_device_id, r),
    {
        let id = self.resolve_device_id(computer_name, host_name);
        let device_id = id.concat(VIEWER_SUFFIX);
        if self.device.pre_shared_key.as_str().is_empty() {
            return Err(ConfigError::NoKey);
        }
        if target_device_id.as_str().is_empty() {
            return Err(ConfigError::NoTarget);
        }
        Ok(
            ViewerPlan {
                server_address: self.server.address.clone(),
                device_id,
                pre_shared_key: self.device.pre_shared_key.clone(),
                target_device_id,
            },
        )
    }
}

/// How the client runs, by its first argument.
pub open spec fn mode_for(arg: Option<String>) -> Mode {
    match arg {
        Some(a) if a@ == "--service"@ => Mode::Service,
        _ => Mode::Gui,
    }
}

/// How the client runs, by its first argument.
pub fn mode_of(arg: Option<String>) -> (mode: Mode)
    ensures
        mode == mode_for(arg),
{
    match arg {
        Some(a) => {
            if a == "--service".to_owned() {
                Mode::Service
            } else {
                Mode::Gui
            }
        },
        None => Mode::Gui,
    }
}

/// Settings that were loaded, and written where that was called for, load again as
/// they are, and are not written again.
pub proof fn law_settings_load_again<E>(
    found: Result<Option<ClientConfig>, E>,
    config: ClientConfig,
    save: bool,
    again: Result<(ClientConfig, bool), E>,
)
    requires
        loads(found, Ok((config, save))),
        loads(Ok(Some(config)), again),
    ensures
        again == Ok::<(ClientConfig, bool), E>((config, false)),
{
}

/// A device has one id: whatever resolving it gives, it gives each time.
pub proof fn law_device_id_is_unique(
    configured: Seq<char>,
    computer_name: Option<String>,
    host_name: Option<String>,
    x: Seq<char>,
    y: Seq<char>,
)
    requires
        is_device_id(x, configured, computer_name, host_name),
        is_device_id(y, configured, computer_name, host_name),
    ensures
        x == y,
{
    if !is_blank(configured) {
        lemma_trimmed_is_unique(configured, x, y);
    }
}

/// A configured id is taken without the white space around it, and no more is taken away;
/// a blank one gives way to the name of the computer, then to that of the host.
pub proof fn law_device_id_is_the_first_name(
    id: Seq<char>,
    configured: Seq<char>,
    computer_name: Option<String>,
    host_name: Option<String>,
)
    requires
        is_device_id(id, configured, computer_name, host_name),
    ensures
        !is_blank(configured) ==> {
            &&& id.len() > 0 && !is_white_space(id[0]) && !is_white_space(id.last())
            &&& exists|a: int, b: int|
                0 <= a <= b <= configured.len() && id == #[trigger] configured.subrange(a, b)
                    && is_blank(configured.take(a)) && is_blank(configured.skip(b))
        },
        configured.len() > 0 && !is_white_space(configured[0]) && !is_white_space(configured.last())
            ==> id == configured,
        is_blank(configured) && computer_name is Some ==> id == computer_name->0@,
        is_blank(configured) && computer_name is None && host_name is Some ==> id == host_name->0@,
{
    if !is_blank(configured) {
        lemma_trimmed_is_unique(configured, id, id);
        let (a, b): (int, int) = choose|a: int, b: int| #[trigger]
            trims(configured, a, b) && id == configured.subrange(a, b);
        assert(is_blank(configured.take(a)));
        assert(is_blank(configured.skip(b)));
        assert(id == configured.subrange(a, b));
    }
    if configured.len() > 0 && !is_white_space(configured[0]) && !is_white_space(
        configured.last(),
    ) {
        assert(!is_blank(configured));
        assert(trims(configured, 0, configured.len() as int));
        assert(configured.subrange(0, configured.len() as int) =~= configured);
        lemma_trimmed_is_unique(configured, id, configured);
    }
}

/// A device that no name was found for is called unknown.
pub proof fn law_a_nameless_device_is_unknown(id: Seq<char>, configured: Seq<char>)
    requires
        is_blank(configured),
        is_device_id(id, configured, None, None),
    ensures
        id == "unknown"@,
        id.len() == 7,
{
    reveal_strlit("unknown");
}

/// Where no settings are found, settings without an id and without a key are written;
/// they load again as they are, and neither a service nor a viewer begins with them.
pub proof fn law_new_settings_await_a_key<E>(
    loaded: Result<(ClientConfig, bool), E>,
    again: Result<(ClientConfig, bool), E>,
    computer_name: Option<String>,
    host_name: Option<String>,
    target_device_id: String,
    service: Result<ServicePlan, ConfigError>,
    viewer: Result<ViewerPlan, ConfigError>,
)
    requires
        loads(Ok(None), loaded),
        loaded matches Ok((config, _)) ==> {
            &&& loads(Ok(Some(config)), again)
            &&& plans_service(config, computer_name, host_name, service)
            &&& plans_viewer(config, computer_name, host_name, target_device_id, viewer)
        },
    ensures
        loaded is Ok && loaded->Ok_0.1,
        again == Ok::<(ClientConfig, bool), E>((loaded->Ok_0.0, false)),
        loaded->Ok_0.0.device.id@.len() == 0,
        service == Err::<ServicePlan, ConfigError>(ConfigError::NoKey),
        viewer == Err::<ViewerPlan, ConfigError>(ConfigError::NoKey),
{
}

/// A service and a viewer with the same settings reach the same relay with the same key,
/// under different ids; the viewer asks for the device that it was told to show. A viewer
/// that was told none does not begin.
pub proof fn law_plans_follow_the_settings(
    config: ClientConfig,
    computer_name: Option<String>,
    host_name: Option<String>,
    target_device_id: String,
    service: Result<ServicePlan, ConfigError>,
    viewer: Result<ViewerPlan, ConfigError>,
)
    requires
        config.device.pre_shared_key@.len() > 0,
        plans_service(config, computer_name, host_name, service),
        plans_viewer(config, computer_name, host_name, target_device_id, viewer),
    ensures
        service matches Ok(s) && {
            &&& s.server_address == config.server.address
            &&& s.pre_shared_key == config.device.pre_shared_key
            &&& is_device_id(s.device_id@, config.device.id@, computer_name, host_name)
            &&& viewer matches Ok(v) ==> {
                &&& v.server_address == s.server_address
                &&& v.pre_shared_key == s.pre_shared_key
                &&& v.device_id@ == s.device_id@ + "-gui"@
                &&& v.device_id@ != s.device_id@
                &&& v.target_device_id == target_device_id
            }
        },
        target_device_id@.len() > 0 ==> viewer is Ok,
        target_device_id@.len() == 0 ==> viewer == Err::<ViewerPlan, ConfigError>(
            ConfigError::NoTarget,
        ),
{
    if let Ok(v) = viewer {
        let id = choose|id: Seq<char>| #[trigger]
            is_device_id(id, config.device.id@, computer_name, host_name) && v.device_id@ == id
                + VIEWER_SUFFIX@;
        law_device_id_is_unique(
            config.device.id@,
            computer_name,
            host_name,
            id,
            service->Ok_0.device_id@,
        );
        law_viewer_and_service_differ(id);
    }
}

/// The client runs as a service exactly if that is what its first argument says.
pub proof fn law_a_service_is_asked_for(arg: Option<String>)
    ensures
        mode_for(arg) == Mode::Service <==> arg is Some && arg->0@ == "--service"@,
        mode_for(None) == Mode::Gui,
{
}

/// A viewer and a service on one device go by different ids.
pub proof fn law_viewer_and_service_differ(id: Seq<char>)
    ensures
        id + VIEWER_SUFFIX@ != id,
{
    reveal_strlit("-gui");
    assert((id + VIEWER_SUFFIX@).len() == id.len() + 4);
}

} // verus!
