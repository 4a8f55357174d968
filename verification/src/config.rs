use vstd::prelude::*;

use crate::json::{models, Json, JsonModel, NumberModel};
use crate::text::{decimal, decimal_text};

verus! {

/// Why a value could not be read from the configuration.
#[derive(Debug, PartialEq)]
pub enum ConfigError {
    /// A whole section was asked for under a name that is absent.
    KeyNotFound { key: String },
    /// A single setting was asked for under a name that is absent.
    MissingKey { key: String },
    /// The setting is present but is not a non-negative integer.
    NotUnsigned { key: String, value: Json },
    /// The setting is present but is not a string.
    NotString { key: String, value: Json },
    /// The named part of the configuration is not an array.
    NotArray { what: String, value: Json },
}

/// The mathematical model of a [`ConfigError`].
pub enum ConfigErrorModel {
    KeyNotFound { key: Seq<char> },
    MissingKey { key: Seq<char> },
    NotUnsigned { key: Seq<char>, value: JsonModel },
    NotString { key: Seq<char>, value: JsonModel },
    NotArray { what: Seq<char>, value: JsonModel },
}

impl ConfigError {
    pub open spec fn model(&self) -> ConfigErrorModel {
        match self {
            ConfigError::KeyNotFound { key } => ConfigErrorModel::KeyNotFound { key: key@ },
            ConfigError::MissingKey { key } => ConfigErrorModel::MissingKey { key: key@ },
            ConfigError::NotUnsigned { key, value } => ConfigErrorModel::NotUnsigned {
                key: key@,
                value: value.model(),
            },
            ConfigError::NotString { key, value } => ConfigErrorModel::NotString {
                key: key@,
                value: value.model(),
            },
            ConfigError::NotArray { what, value } => ConfigErrorModel::NotArray {
                what: what@,
                value: value.model(),
            },
        }
    }
}

/// The message of a configuration error. `shown` is how the offending value
/// prints: as JSON text for a value of the wrong kind, and in debug form for
/// one that is not an array.
pub open spec fn config_error_text(e: ConfigErrorModel, shown: Seq<char>) -> Seq<char> {
    match e {
        ConfigErrorModel::KeyNotFound { key } => "Can't find the key '"@ + key + "' in config file."@,
        ConfigErrorModel::MissingKey { key } => "Config don't have the key '"@ + key + "'."@,
        ConfigErrorModel::NotUnsigned { key, .. } => "The value of key '"@ + key + "' is '"@ + shown
            + "' which should be an unsigned integer."@,
        ConfigErrorModel::NotString { key, .. } => "The value of key '"@ + key + "' is '"@ + shown
            + "' which should be a string."@,
        ConfigErrorModel::NotArray { what, .. } => what + " is '"@ + shown + "', which should be an array."@,
    }
}

impl ConfigError {
    /// The message of the error, given how the offending value prints (see
    /// [`config_error_text`]); errors without a value ignore `shown`.
    pub fn describe(&self, shown: &str) -> (text: String)
        ensures
            text@ == config_error_text(self.model(), shown@),
    {
        match self {
            ConfigError::KeyNotFound { key } => {
                let mut text = String::from_str("Can't find the key '");
                text.append(key.as_str());
                text.append("' in config file.");
                text
            },
            ConfigError::MissingKey { key } => {
                let mut text = String::from_str("Config don't have the key '");
                text.append(key.as_str());
                text.append("'.");
                text
            },
            ConfigError::NotUnsigned { key, .. } => {
                let mut text = String::from_str("The value of key '");
                text.append(key.as_str());
                text.append("' is '");
                text.append(shown);
                text.append("' which should be an unsigned integer.");
                text
            },
            ConfigError::NotString { key, .. } => {
                let mut text = String::from_str("The value of key '");
                text.append(key.as_str());
                text.append("' is '");
                text.append(shown);
                text.append("' which should be a string.");
                text
            },
            ConfigError::NotArray { what, .. } => {
                let mut text = what.clone();
                text.append(" is '");
                text.append(shown);
                text.append("', which should be an array.");
                text
            },
        }
    }
}

/// The model of the outcome of a lookup that yields a document.
pub open spec fn json_result_model(r: Result<Json, ConfigError>) -> Result<JsonModel, ConfigErrorModel> {
    match r {
        Ok(v) => Ok(v.model()),
        Err(e) => Err(e.model()),
    }
}

/// The model of the outcome of a lookup that yields a number.
pub open spec fn u64_result_model(r: Result<u64, ConfigError>) -> Result<u64, ConfigErrorModel> {
    match r {
        Ok(n) => Ok(n),
        Err(e) => Err(e.model()),
    }
}

/// The model of the outcome of a lookup that yields a string.
pub open spec fn string_result_model(r: Result<String, ConfigError>) -> Result<Seq<char>, ConfigErrorModel> {
    match r {
        Ok(s) => Ok(s@),
        Err(e) => Err(e.model()),
    }
}

/// The model of the outcome of a lookup that yields two strings.
pub open spec fn pair_result_model(r: Result<(String, String), ConfigError>) -> Result<(Seq<char>, Seq<char>), ConfigErrorModel> {
    match r {
        Ok(p) => Ok((p.0@, p.1@)),
        Err(e) => Err(e.model()),
    }
}

/// What looking up a section by name gives.
pub open spec fn lookup(config: JsonModel, key: Seq<char>) -> Result<JsonModel, ConfigErrorModel> {
    match config.get(key) {
        Some(v) => Ok(v),
        None => Err(ConfigErrorModel::KeyNotFound { key }),
    }
}

/// What looking up a non-negative integer setting by name gives.
pub open spec fn lookup_u64(config: JsonModel, key: Seq<char>) -> Result<u64, ConfigErrorModel> {
    match config.get(key) {
        None => Err(ConfigErrorModel::MissingKey { key }),
        Some(v) => match v.as_u64() {
            Some(n) => Ok(n),
            None => Err(ConfigErrorModel::NotUnsigned { key, value: v }),
        },
    }
}

/// What looking up a string setting by name gives.
pub open spec fn lookup_string(config: JsonModel, key: Seq<char>) -> Result<Seq<char>, ConfigErrorModel> {
    match config.get(key) {
        None => Err(ConfigErrorModel::MissingKey { key }),
        Some(v) => match v.as_str() {
            Some(s) => Ok(s),
            None => Err(ConfigErrorModel::NotString { key, value: v }),
        },
    }
}

/// Looks up a section of the configuration by name and returns a copy of it.
pub fn get_json_value(config: &Json, key: &str) -> (r: Result<Json, ConfigError>)
    ensures
        json_result_model(r) == lookup(config.model(), key@),
{
    match config.get(key) {
        Some(value) => Ok(value.duplicate()),
        None => Err(ConfigError::KeyNotFound { key: String::from_str(key) }),
    }
}

/// Looks up a non-negative integer setting by name.
pub fn get_json_value_as_u64(config: &Json, key: &str) -> (r: Result<u64, ConfigError>)
    ensures
        u64_result_model(r) == lookup_u64(config.model(), key@),
{
    match config.get(key) {
        None => Err(ConfigError::MissingKey { key: String::from_str(key) }),
        Some(value) => match value.as_u64() {
            Some(n) => Ok(n),
            None => Err(ConfigError::NotUnsigned { key: String::from_str(key), value: value.duplicate() }),
        },
    }
}

/// Looks up a string setting by name and returns a copy of it.
pub fn get_json_value_as_string(config: &Json, key: &str) -> (r: Result<String, ConfigError>)
    ensures
        string_result_model(r) == lookup_string(config.model(), key@),
{
    match config.get(key) {
        None => Err(ConfigError::MissingKey { key: String::from_str(key) }),
        Some(value) => match value.as_str() {
            Some(s) => Ok(s.clone()),
            None => Err(ConfigError::NotString { key: String::from_str(key), value: value.duplicate() }),
        },
    }
}

/// The command line that starts the web server.
pub open spec fn web_server_command(bin: Seq<char>, ip: Seq<char>, port: u64, config_path: Seq<char>) -> Seq<char> {
    bin + " --ip "@ + ip + " --port "@ + decimal_text(port as nat) + " --config_path "@ + config_path
}

/// The address under which the web server answers.
pub open spec fn web_base_url(ip: Seq<char>, port: u64) -> Seq<char> {
    "http://"@ + ip + ":"@ + decimal_text(port as nat)
}

/// What reading the web server's settings gives: its command line and its
/// address, or the first setting that is missing or of the wrong kind, in
/// the order `web`, `web.bin`, `web.arguments`, then its `ip`, `port` and
/// `config_path`.
pub open spec fn web_server_args(config: JsonModel) -> Result<(Seq<char>, Seq<char>), ConfigErrorModel> {
    match lookup(config, "web"@) {
        Err(e) => Err(e),
        Ok(web) => match lookup_string(web, "bin"@) {
            Err(e) => Err(e),
            Ok(bin) => match lookup(web, "arguments"@) {
                Err(e) => Err(e),
                Ok(arguments) => match lookup_string(arguments, "ip"@) {
                    Err(e) => Err(e),
                    Ok(ip) => match lookup_u64(arguments, "port"@) {
                        Err(e) => Err(e),
                        Ok(port) => match lookup_string(arguments, "config_path"@) {
                            Err(e) => Err(e),
                            Ok(config_path) => Ok(
                                (web_server_command(bin, ip, port, config_path), web_base_url(ip, port)),
                            ),
                        },
                    },
                },
            },
        },
    }
}

/// Reads the web server's settings: returns the command line that starts it
/// and the base address of its service.
pub fn parse_web_server_args(config: &Json) -> (r: Result<(String, String), ConfigError>)
    ensures
        pair_result_model(r) == web_server_args(config.model()),
{
    let web = get_json_value(config, "web")?;
    let bin = get_json_value_as_string(&web, "bin")?;
    let arguments = get_json_value(&web, "arguments")?;
    let ip = get_json_value_as_string(&arguments, "ip")?;
    let port = get_json_value_as_u64(&arguments, "port")?;
    let config_path = get_json_value_as_string(&arguments, "config_path")?;
    let port_text = decimal(port);

    let mut command = bin;
    command.append(" --ip ");
    command.append(ip.as_str());
    command.append(" --port ");
    command.append(port_text.as_str());
    command.append(" --config_path ");
    command.append(config_path.as_str());

    let mut base_url = String::from_str("http://");
    base_url.append(ip.as_str());
    base_url.append(":");
    base_url.append(port_text.as_str());

    Ok((command, base_url))
}


/// Whether every element is a string.
pub open spec fn all_strings(items: Seq<JsonModel>) -> bool {
    forall|i: int| 0 <= i < items.len() ==> #[trigger] items[i] is String
}

/// The command lines of one store's servers: the store's program, once for
/// each configuration file.
pub open spec fn store_commands(bin: Seq<char>, arguments: Seq<JsonModel>) -> Seq<Seq<char>> {
    Seq::new(arguments.len(), |i: int| bin + " --config_path "@ + arguments[i]->String_0)
}

/// The virtual network interfaces of one store: each address, not yet set up.
pub open spec fn store_vnics(addresses: Seq<JsonModel>) -> Seq<(Seq<char>, bool)> {
    Seq::new(addresses.len(), |i: int| (addresses[i]->String_0, false))
}

/// What reading one store's settings comes to.
pub enum StoreModel {
    Parsed(Seq<Seq<char>>, Seq<(Seq<char>, bool)>),
    Failed(ConfigErrorModel),
    /// An element of `arguments` or `vnics` is not a string.
    Unreadable,
}

/// What reading all stores' settings comes to.
pub enum StoresModel {
    Parsed(Seq<Seq<Seq<char>>>, Seq<Seq<(Seq<char>, bool)>>),
    Failed(ConfigErrorModel),
    /// An element of some `arguments` or `vnics` is not a string.
    Unreadable,
}

/// Reading one store: `bin`, then `arguments`, which must be an array of
/// strings, then `vnics`, which must be an array of strings. When `vnics` is
/// not an array, the error names and shows `arguments`.
pub open spec fn store_args(store: JsonModel) -> StoreModel {
    match lookup_string(store, "bin"@) {
        Err(e) => StoreModel::Failed(e),
        Ok(bin) => match lookup(store, "arguments"@) {
            Err(e) => StoreModel::Failed(e),
            Ok(arguments) => match arguments.as_array() {
                None => StoreModel::Failed(ConfigErrorModel::NotArray { what: "arguments"@, value: arguments }),
                Some(args) => if !all_strings(args) {
                    StoreModel::Unreadable
                } else {
                    match lookup(store, "vnics"@) {
                        Err(e) => StoreModel::Failed(e),
                        Ok(vnics) => match vnics.as_array() {
                            None => StoreModel::Failed(ConfigErrorModel::NotArray { what: "arguments"@, value: arguments }),
                            Some(addresses) => if !all_strings(addresses) {
                                StoreModel::Unreadable
                            } else {
                                StoreModel::Parsed(store_commands(bin, args), store_vnics(addresses))
                            },
                        },
                    }
                },
            },
        },
    }
}

/// Reading the stores one after the other; the first that cannot be read
/// decides the outcome.
pub open spec fn stores_args(stores: Seq<JsonModel>) -> StoresModel
    decreases stores.len(),
{
    if stores.len() == 0 {
        StoresModel::Parsed(Seq::empty(), Seq::empty())
    } else {
        match stores_args(stores.drop_last()) {
            StoresModel::Parsed(cmds, vnics) => match store_args(stores.last()) {
                StoreModel::Parsed(c, v) => StoresModel::Parsed(cmds.push(c), vnics.push(v)),
                StoreModel::Failed(e) => StoresModel::Failed(e),
                StoreModel::Unreadable => StoresModel::Unreadable,
            },
            other => other,
        }
    }
}

/// What reading the `stores` section of the configuration comes to.
pub open spec fn store_server_args(config: JsonModel) -> StoresModel {
    match lookup(config, "stores"@) {
        Err(e) => StoresModel::Failed(e),
        Ok(stores) => match stores.as_array() {
            None => StoresModel::Failed(ConfigErrorModel::NotArray { what: "stores"@, value: stores }),
            Some(items) => stores_args(items),
        },
    }
}

/// The outcome of reading the store servers' settings.
#[derive(Debug, PartialEq)]
pub enum StoresParse {
    /// For each store, the command lines of its servers and its virtual
    /// network interfaces, each with whether it is set up (not yet).
    Parsed(Vec<Vec<String>>, Vec<Vec<(String, bool)>>),
    Failed(ConfigError),
    /// An element of some `arguments` or `vnics` is not a string.
    Unreadable,
}

impl StoresParse {
    pub open spec fn model(&self) -> StoresModel {
        match self {
            StoresParse::Parsed(cmds, vnics) => StoresModel::Parsed(cmds.deep_view(), vnics.deep_view()),
            StoresParse::Failed(e) => StoresModel::Failed(e.model()),
            StoresParse::Unreadable => StoresModel::Unreadable,
        }
    }
}

enum StoreParse {
    Parsed(Vec<String>, Vec<(String, bool)>),
    Failed(ConfigError),
    Unreadable,
}

impl StoreParse {
    spec fn model(&self) -> StoreModel {
        match self {
            StoreParse::Parsed(cmds, vnics) => StoreModel::Parsed(cmds.deep_view(), vnics.deep_view()),
            StoreParse::Failed(e) => StoreModel::Failed(e.model()),
            StoreParse::Unreadable => StoreModel::Unreadable,
        }
    }
}

#[verifier::loop_isolation(false)]
fn read_store(store: &Json) -> (r: StoreParse)
    ensures
        r.model() == store_args(store.model()),
{
    let bin = match get_json_value_as_string(store, "bin") {
        Ok(bin) => bin,
        Err(e) => return StoreParse::Failed(e),
    };
    let arguments = match get_json_value(store, "arguments") {
        Ok(arguments) => arguments,
        Err(e) => return StoreParse::Failed(e),
    };
    let mut cmds: Vec<String> = Vec::new();
    match arguments.as_array() {
        Some(items) => {
            let ghost args = models(items@);
            let mut i: usize = 0;
            while i < items.len()
                invariant
                    i <= items@.len(),
                    args == models(items@),
                    cmds@.len() == i,
                    forall|j: int| 0 <= j < i ==> #[trigger] args[j] is String,
                    forall|j: int| 0 <= j < i ==> #[trigger] cmds@[j]@ == bin@ + " --config_path "@ + args[j]->String_0,
                decreases items@.len() - i,
            {
                match items[i].as_str() {
                    None => {
                        assert(!(args[i as int] is String));
                        return StoreParse::Unreadable;
                    },
                    Some(argument) => {
                        let mut cmd = bin.clone();
                        cmd.append(" --config_path ");
                        cmd.append(argument.as_str());
                        cmds.push(cmd);
                    },
                }
                i = i + 1;
            }
            assert(cmds.deep_view() =~= store_commands(bin@, args));
        },
        None => {
            let what = String::from_str("arguments");
            return StoreParse::Failed(ConfigError::NotArray { what, value: arguments });
        },
    }
    let addresses = match get_json_value(store, "vnics") {
        Ok(addresses) => addresses,
        Err(e) => return StoreParse::Failed(e),
    };
    let mut vnics: Vec<(String, bool)> = Vec::new();
    match addresses.as_array() {
        Some(items) => {
            let ghost addrs = models(items@);
            let mut i: usize = 0;
            while i < items.len()
                invariant
                    i <= items@.len(),
                    addrs == models(items@),
                    vnics@.len() == i,
                    forall|j: int| 0 <= j < i ==> #[trigger] addrs[j] is String,
                    forall|j: int| 0 <= j < i ==> #[trigger] vnics@[j].0@ == addrs[j]->String_0 && !vnics@[j].1,
                decreases items@.len() - i,
            {
                match items[i].as_str() {
                    None => {
                        assert(!(addrs[i as int] is String));
                        return StoreParse::Unreadable;
                    },
                    Some(address) => {
                        vnics.push((address.clone(), false));
                    },
                }
                i = i + 1;
            }
            assert(vnics.deep_view() =~= store_vnics(addrs));
        },
        None => {
            let what = String::from_str("arguments");
            return StoreParse::Failed(ConfigError::NotArray { what, value: arguments });
        },
    }
    StoreParse::Parsed(cmds, vnics)
}

/// Reads the store servers' settings: for each store, the command lines of
/// its servers and its virtual network interfaces (none of them set up yet),
/// or what stopped the reading.
#[verifier::loop_isolation(false)]
pub fn read_store_server_args(config: &Json) -> (r: StoresParse)
    ensures
        r.model() == store_server_args(config.model()),
{
    let stores = match get_json_value(config, "stores") {
        Ok(stores) => stores,
        Err(e) => return StoresParse::Failed(e),
    };
    match stores.as_array() {
        Some(items) => {
            let ghost all = models(items@);
            let mut cmds_vec: Vec<Vec<String>> = Vec::new();
            let mut vnics_vec: Vec<Vec<(String, bool)>> = Vec::new();
            let mut i: usize = 0;
            assert(all.take(0) =~= Seq::<JsonModel>::empty());
            assert(cmds_vec.deep_view() =~= Seq::<Seq<Seq<char>>>::empty());
            assert(vnics_vec.deep_view() =~= Seq::<Seq<(Seq<char>, bool)>>::empty());
            while i < items.len()
                invariant
                    i <= items@.len(),
                    all == models(items@),
                    stores_args(all.take(i as int)) == StoresModel::Parsed(cmds_vec.deep_view(), vnics_vec.deep_view()),
                decreases items@.len() - i,
            {
                let store = read_store(&items[i]);
                assert(all.take(i + 1).drop_last() =~= all.take(i as int));
                assert(all.take(i + 1).last() == all[i as int]);
                assert(all[i as int] == items@[i as int].model());
                match store {
                    StoreParse::Parsed(c, v) => {
                        let ghost old_c = cmds_vec.deep_view();
                        let ghost old_v = vnics_vec.deep_view();
                        cmds_vec.push(c);
                        vnics_vec.push(v);
                        assert(cmds_vec.deep_view() =~= old_c.push(c.deep_view()));
                        assert(vnics_vec.deep_view() =~= old_v.push(v.deep_view()));
                    },
                    StoreParse::Failed(e) => {
                        proof { lemma_stores_args_prefix(all, i as int + 1); }
                        return StoresParse::Failed(e);
                    },
                    StoreParse::Unreadable => {
                        proof { lemma_stores_args_prefix(all, i as int + 1); }
                        return StoresParse::Unreadable;
                    },
                }
                i = i + 1;
            }
            assert(all.take(i as int) =~= all);
            StoresParse::Parsed(cmds_vec, vnics_vec)
        },
        None => {
            let what = String::from_str("stores");
            StoresParse::Failed(ConfigError::NotArray { what, value: stores })
        },
    }
}

/// Once a prefix of the stores cannot be read, neither can the whole list,
/// for the same reason.
proof fn lemma_stores_args_prefix(stores: Seq<JsonModel>, n: int)
    requires
        0 <= n <= stores.len(),
        !(stores_args(stores.take(n)) is Parsed),
    ensures
        stores_args(stores) == stores_args(stores.take(n)),
    decreases stores.len() - n,
{
    if n < stores.len() {
        assert(stores.take(n + 1).drop_last() =~= stores.take(n));
        lemma_stores_args_prefix(stores, n + 1);
    } else {
        assert(stores.take(n) =~= stores);
    }
}

/// Reads the store servers' settings: for each store, the command lines of
/// its servers and its virtual network interfaces (none of them set up yet).
pub fn parse_store_server_args(config: &Json) -> (r: Result<(Vec<Vec<String>>, Vec<Vec<(String, bool)>>), ConfigError>)
    requires
        !(store_server_args(config.model()) is Unreadable),
    ensures
        match r {
            Ok((cmds, vnics)) => store_server_args(config.model())
                == StoresModel::Parsed(cmds.deep_view(), vnics.deep_view()),
            Err(e) => store_server_args(config.model()) == StoresModel::Failed(e.model()),
        },
{
    match read_store_server_args(config) {
        StoresParse::Parsed(cmds, vnics) => Ok((cmds, vnics)),
        StoresParse::Failed(e) => Err(e),
        StoresParse::Unreadable => {
            // Excluded by the precondition.
            proof { assert(false); }
            Err(ConfigError::KeyNotFound { key: String::new() })
        },
    }
}

/// Every store's interfaces, as read from the configuration, start down.
pub proof fn parsed_interfaces_start_down(config: JsonModel)
    ensures
        store_server_args(config) matches StoresModel::Parsed(cmds, vnics) ==> {
            &&& cmds.len() == vnics.len()
            &&& forall|a: int, b: int| 0 <= a < vnics.len() && 0 <= b < vnics[a].len() ==> !(#[trigger] vnics[a][b]).1
        },
{
    if let Ok(stores) = lookup(config, "stores"@) {
        if let Some(items) = stores.as_array() {
            lemma_stores_args_start_down(items);
        }
    }
}

proof fn lemma_stores_args_start_down(stores: Seq<JsonModel>)
    ensures
        stores_args(stores) matches StoresModel::Parsed(cmds, vnics) ==> {
            &&& cmds.len() == vnics.len()
            &&& cmds.len() == stores.len()
            &&& forall|a: int, b: int| 0 <= a < vnics.len() && 0 <= b < vnics[a].len() ==> !(#[trigger] vnics[a][b]).1
        },
    decreases stores.len(),
{
    if stores.len() > 0 {
        lemma_stores_args_start_down(stores.drop_last());
    }
}

/// Reading a typed setting agrees with looking its name up: it fails for a
/// missing name exactly when the lookup does, and it gives a value exactly
/// when the lookup finds one of that kind, the same value.
pub proof fn typed_lookups_agree_with_lookup(config: JsonModel, key: Seq<char>)
    ensures
        lookup(config, key) is Err <==> lookup_u64(config, key) == Err::<u64, ConfigErrorModel>(
            ConfigErrorModel::MissingKey { key },
        ),
        lookup(config, key) is Err <==> lookup_string(config, key) == Err::<Seq<char>, ConfigErrorModel>(
            ConfigErrorModel::MissingKey { key },
        ),
        lookup_u64(config, key) matches Ok(n) ==> lookup(config, key) == Ok::<JsonModel, ConfigErrorModel>(
            JsonModel::Number(NumberModel::PosInt(n)),
        ),
        lookup(config, key) matches Ok(JsonModel::Number(NumberModel::PosInt(n))) ==> lookup_u64(config, key)
            == Ok::<u64, ConfigErrorModel>(n),
        lookup_string(config, key) matches Ok(t) ==> lookup(config, key) == Ok::<JsonModel, ConfigErrorModel>(
            JsonModel::String(t),
        ),
        lookup(config, key) matches Ok(JsonModel::String(t)) ==> lookup_string(config, key) == Ok::<
            Seq<char>,
            ConfigErrorModel,
        >(t),
{
}

} // verus!
