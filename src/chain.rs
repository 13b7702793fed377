use vstd::prelude::*;

use crate::error::Error;
use crate::text::{ends_with, is_prefix, is_suffix, starts_with, text_eq};

verus! {

/// The networks a node knows by name.
#[derive(Clone, Copy, Debug, PartialEq, Eq, Structural)]
pub enum Chain {
    Polkadot,
    Kusama,
    Westend,
    Rococo,
    Wococo,
}

/// Which configuration of a known network is asked for.
#[derive(Clone, Copy, Debug, PartialEq, Eq, Structural)]
pub enum Variant {
    Live,
    Development,
    Local,
    Staging,
}

/// Where the chain specification comes from.
#[derive(Clone, Copy, Debug, PartialEq, Eq, Structural)]
pub enum ChainSelection {
    /// A specification built into the node.
    Builtin(Chain, Variant),
    /// A JSON file at the path given as the chain id.
    File,
}

/// The native runtimes this node was built with.
#[derive(Clone, Copy, Debug, PartialEq, Eq, Structural)]
pub struct NativeRuntimes {
    pub polkadot: bool,
    pub kusama: bool,
    pub westend: bool,
    pub rococo: bool,
}

/// What a loaded chain specification says of itself.
#[derive(Clone, Copy, Debug, PartialEq, Eq, Structural)]
pub struct SpecIdentity {
    pub kusama: bool,
    pub westend: bool,
    pub rococo: bool,
    pub wococo: bool,
    pub dev: bool,
}

/// The address format set as default for a network.
#[derive(Clone, Copy, Debug, PartialEq, Eq, Structural)]
pub enum AddressFormat {
    PolkadotAccount,
    KusamaAccount,
    SubstrateAccount,
}

/// The chain name used when none is given: the first known name that the
/// executable's name begins with, else polkadot.
pub open spec fn default_chain_name(exec: Seq<char>) -> Seq<char> {
    if is_prefix("polkadot"@, exec) {
        "polkadot"@
    } else if is_prefix("kusama"@, exec) {
        "kusama"@
    } else if is_prefix("westend"@, exec) {
        "westend"@
    } else if is_prefix("rococo"@, exec) {
        "rococo"@
    } else {
        "polkadot"@
    }
}

/// The message for a chain whose native runtime was not built in.
pub open spec fn unsupported_text(name: Seq<char>, feature: Seq<char>) -> Seq<char> {
    "`"@ + name + "` only supported with `"@ + feature + "` feature enabled."@
}

/// Whether `id` names a configuration of `prefix`'s network (and not a JSON file)
/// that cannot be served without its native runtime.
pub open spec fn needs_native(id: Seq<char>, prefix: Seq<char>, json_allowed: bool) -> bool {
    is_prefix(prefix, id) && (json_allowed ==> !is_suffix(".json"@, id))
}

/// Where the specification for the chain id `id` comes from.
pub open spec fn selection_of(id: Seq<char>, n: NativeRuntimes) -> Result<ChainSelection, Seq<char>> {
    if id == "kusama"@ {
        Ok(ChainSelection::Builtin(Chain::Kusama, Variant::Live))
    } else if n.kusama && id == "kusama-dev"@ {
        Ok(ChainSelection::Builtin(Chain::Kusama, Variant::Development))
    } else if n.kusama && id == "kusama-local"@ {
        Ok(ChainSelection::Builtin(Chain::Kusama, Variant::Local))
    } else if n.kusama && id == "kusama-staging"@ {
        Ok(ChainSelection::Builtin(Chain::Kusama, Variant::Staging))
    } else if !n.kusama && needs_native(id, "kusama-"@, true) {
        Err(unsupported_text(id, "kusama-native"@))
    } else if id == "polkadot"@ {
        Ok(ChainSelection::Builtin(Chain::Polkadot, Variant::Live))
    } else if n.polkadot && (id == "polkadot-dev"@ || id == "dev"@) {
        Ok(ChainSelection::Builtin(Chain::Polkadot, Variant::Development))
    } else if n.polkadot && id == "polkadot-local"@ {
        Ok(ChainSelection::Builtin(Chain::Polkadot, Variant::Local))
    } else if n.polkadot && id == "polkadot-staging"@ {
        Ok(ChainSelection::Builtin(Chain::Polkadot, Variant::Staging))
    } else if id == "rococo"@ {
        Ok(ChainSelection::Builtin(Chain::Rococo, Variant::Live))
    } else if n.rococo && id == "rococo-dev"@ {
        Ok(ChainSelection::Builtin(Chain::Rococo, Variant::Development))
    } else if n.rococo && id == "rococo-local"@ {
        Ok(ChainSelection::Builtin(Chain::Rococo, Variant::Local))
    } else if n.rococo && id == "rococo-staging"@ {
        Ok(ChainSelection::Builtin(Chain::Rococo, Variant::Staging))
    } else if !n.rococo && needs_native(id, "rococo-"@, true) {
        Err(unsupported_text(id, "rococo-native"@))
    } else if id == "westend"@ {
        Ok(ChainSelection::Builtin(Chain::Westend, Variant::Live))
    } else if n.westend && id == "westend-dev"@ {
        Ok(ChainSelection::Builtin(Chain::Westend, Variant::Development))
    } else if n.westend && id == "westend-local"@ {
        Ok(ChainSelection::Builtin(Chain::Westend, Variant::Local))
    } else if n.westend && id == "westend-staging"@ {
        Ok(ChainSelection::Builtin(Chain::Westend, Variant::Staging))
    } else if !n.westend && needs_native(id, "westend-"@, true) {
        Err(unsupported_text(id, "westend-native"@))
    } else if id == "wococo"@ {
        Ok(ChainSelection::Builtin(Chain::Wococo, Variant::Live))
    } else if n.rococo && id == "wococo-dev"@ {
        Ok(ChainSelection::Builtin(Chain::Wococo, Variant::Development))
    } else if n.rococo && id == "wococo-local"@ {
        Ok(ChainSelection::Builtin(Chain::Wococo, Variant::Local))
    } else if !n.rococo && needs_native(id, "wococo-"@, false) {
        Err(unsupported_text(id, "rococo-native"@))
    } else {
        Ok(ChainSelection::File)
    }
}

/// The chain name used when none is given, from the executable's name.
pub fn default_chain(exec_name: &str) -> (r: &'static str)
    ensures
        r@ == default_chain_name(exec_name@),
{
    if starts_with(exec_name, "polkadot") {
        "polkadot"
    } else if starts_with(exec_name, "kusama") {
        "kusama"
    } else if starts_with(exec_name, "westend") {
        "westend"
    } else if starts_with(exec_name, "rococo") {
        "rococo"
    } else {
        "polkadot"
    }
}

fn unsupported(name: &str, feature: &str) -> (r: String)
    ensures
        r@ == unsupported_text(name@, feature@),
{
    let mut s = String::from_str("`");
    s.append(name);
    s.append("` only supported with `");
    s.append(feature);
    s.append("` feature enabled.");
    s
}

fn needs_native_exec(id: &str, prefix: &str, json_allowed: bool) -> (r: bool)
    ensures
        r == needs_native(id@, prefix@, json_allowed),
{
    starts_with(id, prefix) && (!json_allowed || !ends_with(id, ".json"))
}

/// Decides where the chain specification comes from. An empty id stands for
/// the chain the executable is named after; a name that is no known
/// configuration is a path to a JSON file.
pub fn select_chain(id: &str, exec_name: &str, native: NativeRuntimes) -> (r: Result<ChainSelection, String>)
    ensures
        ({
            let eff = if id@.len() == 0 {
                default_chain_name(exec_name@)
            } else {
                id@
            };
            match r {
                Ok(c) => selection_of(eff, native) == Ok::<ChainSelection, Seq<char>>(c),
                Err(m) => selection_of(eff, native) == Err::<ChainSelection, Seq<char>>(m@),
            }
        }),
{
    let id = if id.unicode_len() == 0 {
        default_chain(exec_name)
    } else {
        id
    };
    let n = native;
    if text_eq(id, "kusama") {
        Ok(ChainSelection::Builtin(Chain::Kusama, Variant::Live))
    } else if n.kusama && text_eq(id, "kusama-dev") {
        Ok(ChainSelection::Builtin(Chain::Kusama, Variant::Development))
    } else if n.kusama && text_eq(id, "kusama-local") {
        Ok(ChainSelection::Builtin(Chain::Kusama, Variant::Local))
    } else if n.kusama && text_eq(id, "kusama-staging") {
        Ok(ChainSelection::Builtin(Chain::Kusama, Variant::Staging))
    } else if !n.kusama && needs_native_exec(id, "kusama-", true) {
        Err(unsupported(id, "kusama-native"))
    } else if text_eq(id, "polkadot") {
        Ok(ChainSelection::Builtin(Chain::Polkadot, Variant::Live))
    } else if n.polkadot && (text_eq(id, "polkadot-dev") || text_eq(id, "dev")) {
        Ok(ChainSelection::Builtin(Chain::Polkadot, Variant::Development))
    } else if n.polkadot && text_eq(id, "polkadot-local") {
        Ok(ChainSelection::Builtin(Chain::Polkadot, Variant::Local))
    } else if n.polkadot && text_eq(id, "polkadot-staging") {
        Ok(ChainSelection::Builtin(Chain::Polkadot, Variant::Staging))
    } else if text_eq(id, "rococo") {
        Ok(ChainSelection::Builtin(Chain::Rococo, Variant::Live))
    } else if n.rococo && text_eq(id, "rococo-dev") {
        Ok(ChainSelection::Builtin(Chain::Rococo, Variant::Development))
    } else if n.rococo && text_eq(id, "rococo-local") {
        Ok(ChainSelection::Builtin(Chain::Rococo, Variant::Local))
    } else if n.rococo && text_eq(id, "rococo-staging") {
        Ok(ChainSelection::Builtin(Chain::Rococo, Variant::Staging))
    } else if !n.rococo && needs_native_exec(id, "rococo-", true) {
        Err(unsupported(id, "rococo-native"))
    } else if text_eq(id, "westend") {
        Ok(ChainSelection::Builtin(Chain::Westend, Variant::Live))
    } else if n.westend && text_eq(id, "westend-dev") {
        Ok(ChainSelection::Builtin(Chain::Westend, Variant::Development))
    } else if n.westend && text_eq(id, "westend-local") {
        Ok(ChainSelection::Builtin(Chain::Westend, Variant::Local))
    } else if n.westend && text_eq(id, "westend-staging") {
        Ok(ChainSelection::Builtin(Chain::Westend, Variant::Staging))
    } else if !n.westend && needs_native_exec(id, "westend-", true) {
        Err(unsupported(id, "westend-native"))
    } else if text_eq(id, "wococo") {
        Ok(ChainSelection::Builtin(Chain::Wococo, Variant::Live))
    } else if n.rococo && text_eq(id, "wococo-dev") {
        Ok(ChainSelection::Builtin(Chain::Wococo, Variant::Development))
    } else if n.rococo && text_eq(id, "wococo-local") {
        Ok(ChainSelection::Builtin(Chain::Wococo, Variant::Local))
    } else if !n.rococo && needs_native_exec(id, "wococo-", false) {
        Err(unsupported(id, "rococo-native"))
    } else {
        Ok(ChainSelection::File)
    }
}

/// The network a specification loaded from a file is treated as: a forced
/// choice or the file's own identity, rococo first, then kusama, then westend.
pub open spec fn file_chain_of(
    force_rococo: bool,
    force_kusama: bool,
    force_westend: bool,
    spec: SpecIdentity,
) -> Chain {
    if force_rococo || spec.rococo || spec.wococo {
        Chain::Rococo
    } else if force_kusama || spec.kusama {
        Chain::Kusama
    } else if force_westend || spec.westend {
        Chain::Westend
    } else {
        Chain::Polkadot
    }
}

/// The network a specification loaded from a file is treated as.
pub fn file_chain(force_rococo: bool, force_kusama: bool, force_westend: bool, spec: SpecIdentity) -> (r: Chain)
    ensures
        r == file_chain_of(force_rococo, force_kusama, force_westend, spec),
{
    if force_rococo || spec.rococo || spec.wococo {
        Chain::Rococo
    } else if force_kusama || spec.kusama {
        Chain::Kusama
    } else if force_westend || spec.westend {
        Chain::Westend
    } else {
        Chain::Polkadot
    }
}

/// The native runtime that serves a specification: kusama, westend and rococo
/// (with wococo) where built in and matching, else polkadot where built in.
pub open spec fn native_runtime_of(spec: SpecIdentity, n: NativeRuntimes) -> Option<Chain> {
    if n.kusama && spec.kusama {
        Some(Chain::Kusama)
    } else if n.westend && spec.westend {
        Some(Chain::Westend)
    } else if n.rococo && (spec.rococo || spec.wococo) {
        Some(Chain::Rococo)
    } else if n.polkadot {
        Some(Chain::Polkadot)
    } else {
        None
    }
}

/// The native runtime that serves a specification; a node built without a
/// runtime that fits is misconfigured.
pub fn native_runtime(spec: SpecIdentity, native: NativeRuntimes) -> (r: Result<Chain, Error>)
    ensures
        match native_runtime_of(spec, native) {
            Some(c) => r == Ok::<Chain, Error>(c),
            None => r matches Err(Error::Other(_)),
        },
{
    if native.kusama && spec.kusama {
        Ok(Chain::Kusama)
    } else if native.westend && spec.westend {
        Ok(Chain::Westend)
    } else if native.rococo && (spec.rococo || spec.wococo) {
        Ok(Chain::Rococo)
    } else if native.polkadot {
        Ok(Chain::Polkadot)
    } else {
        Err(Error::Other(String::from_str("No runtime feature (polkadot, kusama, westend, rococo) is enabled")))
    }
}

/// The default address format of a specification's network.
pub fn default_address_format(spec: SpecIdentity) -> (r: AddressFormat)
    ensures
        r == (if spec.kusama {
            AddressFormat::KusamaAccount
        } else if spec.westend {
            AddressFormat::SubstrateAccount
        } else {
            AddressFormat::PolkadotAccount
        }),
{
    if spec.kusama {
        AddressFormat::KusamaAccount
    } else if spec.westend {
        AddressFormat::SubstrateAccount
    } else {
        AddressFormat::PolkadotAccount
    }
}

/// Text that precedes the id of a chain refused by a development-only command.
pub open spec fn dev_only_text() -> Seq<char> {
    "can only use subcommand with --chain [polkadot-dev, kusama-dev, westend-dev, rococo-dev, wococo-dev], got "@
}

/// Accepts development chains only, naming the refused chain otherwise.
pub fn ensure_dev(spec: SpecIdentity, id: &str) -> (r: Result<(), String>)
    ensures
        spec.dev ==> r is Ok,
        !spec.dev ==> (r matches Err(m) && m@ == dev_only_text() + id@),
{
    if spec.dev {
        Ok(())
    } else {
        let mut s = String::from_str(
            "can only use subcommand with --chain [polkadot-dev, kusama-dev, westend-dev, rococo-dev, wococo-dev], got ",
        );
        s.append(id);
        Err(s)
    }
}

} // verus!
