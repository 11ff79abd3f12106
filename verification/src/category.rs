//! Access categories and their bit flags, and the names under which
//! policies spell them.
use vstd::prelude::*;
use crate::text::{chars_of, same_text, to_lowercase, lowercased};

verus! {

/// A class of protected resource, or of process role, that a rule grants
/// or marks. Each has one bit in a rule's category flags.
#[derive(Debug, Clone, Copy, PartialEq, Eq, Structural)]
pub enum Category {
    BrowserDb,
    Wallet,
    AppData,
    SshKeys,
    UserKeystores,
    AiAgents,
    WebProcess,
    SystemUpdate,
    PersistencePath,
    ProtectedBinary,
}

/// The bit of each category.
pub open spec fn category_flag(c: Category) -> u32 {
    match c {
        Category::BrowserDb => 0x01,
        Category::Wallet => 0x04,
        Category::AppData => 0x08,
        Category::SshKeys => 0x10,
        Category::UserKeystores => 0x20,
        Category::AiAgents => 0x40,
        Category::WebProcess => 0x80,
        Category::SystemUpdate => 0x100,
        Category::PersistencePath => 0x200,
        Category::ProtectedBinary => 0x400,
    }
}

/// The categories that clients of the C interface may ask about, by bit.
pub open spec fn client_category(flag: u32) -> Option<Category> {
    if flag == 0x01 {
        Some(Category::BrowserDb)
    } else if flag == 0x04 {
        Some(Category::Wallet)
    } else if flag == 0x08 {
        Some(Category::AppData)
    } else if flag == 0x10 {
        Some(Category::SshKeys)
    } else if flag == 0x20 {
        Some(Category::UserKeystores)
    } else if flag == 0x40 {
        Some(Category::AiAgents)
    } else {
        None
    }
}

impl Category {
    /// The bit of this category in a rule's category flags.
    pub fn flag(self) -> (r: u32)
        ensures
            r == category_flag(self),
    {
        match self {
            Category::BrowserDb => 0x01,
            Category::Wallet => 0x04,
            Category::AppData => 0x08,
            Category::SshKeys => 0x10,
            Category::UserKeystores => 0x20,
            Category::AiAgents => 0x40,
            Category::WebProcess => 0x80,
            Category::SystemUpdate => 0x100,
            Category::PersistencePath => 0x200,
            Category::ProtectedBinary => 0x400,
        }
    }

    /// The client category whose bit is `flag`; the server-only categories
    /// and every other value give `None`.
    pub fn from_client_flag(flag: u32) -> (r: Option<Category>)
        ensures
            r == client_category(flag),
    {
        match flag {
            0x01 => Some(Category::BrowserDb),
            0x04 => Some(Category::Wallet),
            0x08 => Some(Category::AppData),
            0x10 => Some(Category::SshKeys),
            0x20 => Some(Category::UserKeystores),
            0x40 => Some(Category::AiAgents),
            _ => None,
        }
    }
}

/// Every category has a distinct single bit.
pub proof fn lemma_category_flags_distinct(a: Category, b: Category)
    ensures
        category_flag(a) != 0,
        (category_flag(a) & category_flag(b) != 0) <==> a == b,
{
    let fa = category_flag(a);
    let fb = category_flag(b);
    assert(fa == 1 || fa == 4 || fa == 8 || fa == 16 || fa == 32 || fa == 64 || fa == 128 || fa
        == 256 || fa == 512 || fa == 1024);
    assert(fb == 1 || fb == 4 || fb == 8 || fb == 16 || fb == 32 || fb == 64 || fb == 128 || fb
        == 256 || fb == 512 || fb == 1024);
    assert((fa == 1 || fa == 4 || fa == 8 || fa == 16 || fa == 32 || fa == 64 || fa == 128 || fa
        == 256 || fa == 512 || fa == 1024) && (fb == 1 || fb == 4 || fb == 8 || fb == 16 || fb == 32
        || fb == 64 || fb == 128 || fb == 256 || fb == 512 || fb == 1024) ==> ((fa & fb != 0) <==> fa
        == fb)) by (bit_vector);
}

/// Decoding the bit of a client category gives back that category, and a
/// bit that decodes to a category is that category's bit.
pub proof fn lemma_client_flag_roundtrip(c: Category, flag: u32)
    ensures
        client_category(flag) matches Some(d) ==> category_flag(d) == flag,
        (c == Category::BrowserDb || c == Category::Wallet || c == Category::AppData || c
            == Category::SshKeys || c == Category::UserKeystores || c == Category::AiAgents) ==>
            client_category(category_flag(c)) == Some(c),
{
}

/// The bit that a policy name stands for, once lowercased; an unknown
/// name stands for no bit.
pub open spec fn flag_of_name(n: Seq<char>) -> u32 {
    if n == "browserdb"@ || n == "browser"@ || n == "browser_db"@ {
        0x01
    } else if n == "wallet"@ || n == "crypto_wallet"@ || n == "crypto"@ {
        0x04
    } else if n == "appdata"@ || n == "app_data"@ || n == "app"@ {
        0x08
    } else if n == "sshkeys"@ || n == "ssh_keys"@ || n == "ssh"@ {
        0x10
    } else if n == "userkeystores"@ || n == "user_keystores"@ || n == "keystores"@ || n
        == "keystore"@ {
        0x20
    } else if n == "aiagents"@ || n == "ai_agents"@ || n == "agents"@ || n == "agent"@ {
        0x40
    } else if n == "webprocess"@ || n == "web_process"@ || n == "web"@ {
        0x80
    } else if n == "systemupdate"@ || n == "system_update"@ || n == "update"@ {
        0x100
    } else if n == "persistencepath"@ || n == "persistence_path"@ || n == "persistence"@ {
        0x200
    } else if n == "protectedbinary"@ || n == "protected_binary"@ || n == "protected"@ {
        0x400
    } else {
        0
    }
}

fn is_name(lower: &[char], name: &str) -> (r: bool)
    ensures
        r == (lower@ == name@),
{
    let chars = chars_of(name);
    same_text(lower, chars.as_slice())
}

/// The bit that the policy name `s` stands for, compared case-insensitively;
/// 0 for a name that is not known.
pub fn parse_single_flag(s: &str) -> (r: u32)
    ensures
        r == flag_of_name(lowercased(s@)),
{
    let lower_text = to_lowercase(s);
    let lower = chars_of(lower_text.as_str());
    let l = lower.as_slice();
    if is_name(l, "browserdb") || is_name(l, "browser") || is_name(l, "browser_db") {
        0x01
    } else if is_name(l, "wallet") || is_name(l, "crypto_wallet") || is_name(l, "crypto") {
        0x04
    } else if is_name(l, "appdata") || is_name(l, "app_data") || is_name(l, "app") {
        0x08
    } else if is_name(l, "sshkeys") || is_name(l, "ssh_keys") || is_name(l, "ssh") {
        0x10
    } else if is_name(l, "userkeystores") || is_name(l, "user_keystores") || is_name(
        l,
        "keystores",
    ) || is_name(l, "keystore") {
        0x20
    } else if is_name(l, "aiagents") || is_name(l, "ai_agents") || is_name(l, "agents")
        || is_name(l, "agent") {
        0x40
    } else if is_name(l, "webprocess") || is_name(l, "web_process") || is_name(l, "web") {
        0x80
    } else if is_name(l, "systemupdate") || is_name(l, "system_update") || is_name(l, "update") {
        0x100
    } else if is_name(l, "persistencepath") || is_name(l, "persistence_path") || is_name(
        l,
        "persistence",
    ) {
        0x200
    } else if is_name(l, "protectedbinary") || is_name(l, "protected_binary") || is_name(
        l,
        "protected",
    ) {
        0x400
    } else {
        0
    }
}

} // verus!
