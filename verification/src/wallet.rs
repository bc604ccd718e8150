//! Wallet safety: what state the local wallet is in, and what is safe to do
//! about it.
//!
//! `awp-wallet init` on an existing wallet creates a new wallet and loses
//! access to the old one, so `init` is only ever suggested when no wallet
//! data exists.
use vstd::prelude::*;
use crate::auth;
use crate::json::{self, Json, keys_of};
use crate::output::{Internal, Output, opt_text};
use crate::text;

verus! {

/// What is known about the local wallet.
#[derive(Debug, PartialEq)]
pub struct WalletStatus {
    /// The `awp-wallet` tool is installed.
    pub cli_installed: bool,
    /// Where the tool is, when found.
    pub cli_path: Option<String>,
    /// The wallet directory exists (a wallet was set up at some point).
    pub wallet_dir_exists: bool,
    /// The wallet directory holds keystore files.
    pub has_keystore: bool,
    /// `awp-wallet receive` succeeds (the wallet is accessible).
    pub can_receive: bool,
    /// The wallet address, when accessible.
    pub address: Option<String>,
    /// The state in words.
    pub human_status: String,
}

/// A directory entry that shows a keystore: a `.json` file, a name starting
/// with `keystore` or `UTC--`, or a directory.
pub open spec fn is_keystore_indicator_spec(name: Seq<char>, is_dir: bool) -> bool {
    ||| (name.len() >= 5 && name.skip(name.len() - 5) == ".json"@)
    ||| (name.len() >= 8 && name.take(8) == "keystore"@)
    ||| (name.len() >= 5 && name.take(5) == "UTC--"@)
    ||| is_dir
}

fn ends_with(v: &[char], suffix: &str) -> (r: bool)
    ensures
        r == (v@.len() >= suffix@.len() && v@.skip(v@.len() - suffix@.len()) == suffix@),
{
    let s = text::chars_of(suffix);
    if s.len() > v.len() {
        return false;
    }
    let n = v.len();
    let off = n - s.len();
    let mut i: usize = 0;
    while i < s.len()
        invariant
            off + s@.len() == v@.len(),
            n == v@.len(),
            s@ == suffix@,
            i <= s@.len(),
            forall|j: int| 0 <= j < i ==> v@[off + j] == s@[j],
        decreases s@.len() - i,
    {
        if v[off + i] != s[i] {
            assert(v@.skip(off as int)[i as int] != s@[i as int]);
            return false;
        }
        i = i + 1;
    }
    assert(v@.skip(off as int) =~= s@);
    true
}

fn starts_with(v: &[char], prefix: &str) -> (r: bool)
    ensures
        r == (v@.len() >= prefix@.len() && v@.take(prefix@.len() as int) == prefix@),
{
    let p = text::chars_of(prefix);
    if p.len() > v.len() {
        return false;
    }
    let mut i: usize = 0;
    while i < p.len()
        invariant
            p@.len() <= v@.len(),
            p@ == prefix@,
            i <= p@.len(),
            forall|j: int| 0 <= j < i ==> v@[j] == p@[j],
        decreases p@.len() - i,
    {
        if v[i] != p[i] {
            assert(v@.take(p@.len() as int)[i as int] != p@[i as int]);
            return false;
        }
        i = i + 1;
    }
    assert(v@.take(p@.len() as int) =~= p@);
    true
}

/// Whether a directory entry shows a keystore.
pub fn is_keystore_indicator(name: &str, is_dir: bool) -> (r: bool)
    ensures
        r == is_keystore_indicator_spec(name@, is_dir),
{
    proof {
        reveal_strlit(".json");
        reveal_strlit("keystore");
        reveal_strlit("UTC--");
    }
    let v = text::chars_of(name);
    ends_with(&v, ".json") || starts_with(&v, "keystore") || starts_with(&v, "UTC--") || is_dir
}

/// Whether any entry of the wallet directory (name, is a directory) shows a keystore.
pub fn has_keystore_entry(entries: &[(String, bool)]) -> (r: bool)
    ensures
        r == exists|i: int| 0 <= i < entries@.len() && is_keystore_indicator_spec(#[trigger] entries@[i].0@, entries@[i].1),
{
    let mut i: usize = 0;
    while i < entries.len()
        invariant
            i <= entries@.len(),
            forall|j: int| 0 <= j < i ==> !is_keystore_indicator_spec(#[trigger] entries@[j].0@, entries@[j].1),
        decreases entries@.len() - i,
    {
        if is_keystore_indicator(entries[i].0.as_str(), entries[i].1) {
            return true;
        }
        i = i + 1;
    }
    false
}

/// `dir` joined with the relative component `name`, as `PathBuf::join` does.
pub open spec fn join_path(dir: Seq<char>, name: Seq<char>) -> Seq<char> {
    if dir.len() == 0 {
        name
    } else if dir.last() == '/' {
        dir + name
    } else {
        dir + seq!['/'] + name
    }
}

/// `dir` joined with the relative component `name`, as `PathBuf::join` does.
pub fn join_path_exec(dir: &str, name: &str) -> (r: String)
    ensures
        r@ == join_path(dir@, name@),
{
    let mut v = text::chars_of(dir);
    if v.len() == 0 {
        return text::to_owned_string(name);
    }
    if v[v.len() - 1] != '/' {
        v.push('/');
    }
    text::push_str(&mut v, name);
    text::string_of(&v)
}

impl WalletStatus {
    /// The wallet directory: `.awp-wallet` in the home directory (`/root`
    /// when `HOME` is unset).
    pub fn wallet_dir(home: Option<&str>) -> (r: String)
        ensures
            r@ == join_path(json::or_default(match home { Some(h) => Some(h@), None => None }, "/root"@), ".awp-wallet"@),
    {
        match home {
            Some(h) => join_path_exec(h, ".awp-wallet"),
            None => join_path_exec("/root", ".awp-wallet"),
        }
    }

    /// Whether `awp-wallet init` is safe: only when no wallet data exists,
    /// neither a wallet directory, nor a keystore, nor a wallet that
    /// `awp-wallet receive` can read.
    pub fn safe_to_init(&self) -> (r: bool)
        ensures
            r == (!self.wallet_dir_exists && !self.has_keystore && !self.can_receive),
    {
        !self.wallet_dir_exists && !self.has_keystore && !self.can_receive
    }

    /// The next command for setting the wallet up.
    pub open spec fn setup_command_spec(self) -> Seq<char> {
        if self.can_receive {
            "predict-agent preflight"@
        } else if self.wallet_dir_exists || self.has_keystore {
            "export AWP_WALLET_TOKEN=$(awp-wallet unlock --duration 86400 --scope full --raw)"@
        } else if self.cli_installed {
            "awp-wallet init && export AWP_WALLET_TOKEN=$(awp-wallet unlock --duration 86400 --scope full --raw)"@
        } else {
            "curl -sSL https://raw.githubusercontent.com/predictAworknet/prediction-skill/main/install.sh | sh"@
        }
    }

    /// The next command for setting the wallet up: none when it already
    /// works, unlock when wallet data exists, init only when none does, and
    /// installing the tool when it is missing.
    pub fn setup_command(&self) -> (r: &'static str)
        ensures
            r@ == self.setup_command_spec(),
    {
        if self.can_receive {
            "predict-agent preflight"
        } else if self.wallet_dir_exists || self.has_keystore {
            "export AWP_WALLET_TOKEN=$(awp-wallet unlock --duration 86400 --scope full --raw)"
        } else if self.cli_installed {
            "awp-wallet init && export AWP_WALLET_TOKEN=$(awp-wallet unlock --duration 86400 --scope full --raw)"
        } else {
            "curl -sSL https://raw.githubusercontent.com/predictAworknet/prediction-skill/main/install.sh | sh"
        }
    }

    /// The suggestion shown with wallet errors.
    pub open spec fn suggestion_spec(self) -> Seq<char> {
        if self.can_receive {
            "Wallet is ready. Run: predict-agent preflight"@
        } else if self.wallet_dir_exists || self.has_keystore {
            "Wallet exists but locked. Run: export AWP_WALLET_TOKEN=$(awp-wallet unlock --duration 86400 --scope full --raw)\nIMPORTANT: Do NOT run awp-wallet init — that would overwrite your existing wallet!"@
        } else if self.cli_installed {
            "No wallet found. Run: awp-wallet init && export AWP_WALLET_TOKEN=$(awp-wallet unlock --duration 86400 --scope full --raw)"@
        } else {
            "awp-wallet not installed. Install it first, then run init."@
        }
    }

    /// The suggestion shown with wallet errors.
    pub fn suggestion(&self) -> (r: String)
        ensures
            r@ == self.suggestion_spec(),
    {
        if self.can_receive {
            text::to_owned_string("Wallet is ready. Run: predict-agent preflight")
        } else if self.wallet_dir_exists || self.has_keystore {
            text::to_owned_string(
                "Wallet exists but locked. Run: export AWP_WALLET_TOKEN=$(awp-wallet unlock --duration 86400 --scope full --raw)\nIMPORTANT: Do NOT run awp-wallet init — that would overwrite your existing wallet!",
            )
        } else if self.cli_installed {
            text::to_owned_string(
                "No wallet found. Run: awp-wallet init && export AWP_WALLET_TOKEN=$(awp-wallet unlock --duration 86400 --scope full --raw)",
            )
        } else {
            text::to_owned_string("awp-wallet not installed. Install it first, then run init.")
        }
    }

    /// The wallet's state from what was observed: where the tool is (if
    /// found), whether the wallet directory exists, whether it holds a
    /// keystore, and what `awp-wallet receive` printed when it succeeded.
    /// A keystore counts only inside an existing directory. Without the tool
    /// the directory and keystore are still reported, and nothing is read.
    pub fn assess(cli_path: Option<String>, wallet_dir_exists: bool, has_keystore: bool, receive_output: Option<&str>) -> (r: WalletStatus)
        ensures
            r.wallet_dir_exists == wallet_dir_exists,
            r.has_keystore == (wallet_dir_exists && has_keystore),
            r.cli_installed == (cli_path is Some),
            r.cli_path == cli_path,
            cli_path is None ==> r.human_status@ == "awp-wallet CLI not installed"@ && !r.can_receive && r.address is None,
            cli_path is Some ==> {
                &&& r.can_receive == (receive_output matches Some(o) && receive_address(o@) is Some)
                &&& opt_text(r.address) == match receive_output {
                    Some(o) => receive_address(o@),
                    None => None,
                }
                &&& r.human_status@ == human_status_spec(wallet_dir_exists, r.has_keystore, r.can_receive, opt_text(r.address))
            },
    {
        let has_keystore = wallet_dir_exists && has_keystore;
        if cli_path.is_none() {
            return WalletStatus {
                cli_installed: false,
                cli_path: None,
                wallet_dir_exists,
                has_keystore,
                can_receive: false,
                address: None,
                human_status: text::to_owned_string("awp-wallet CLI not installed"),
            };
        }
        let address = match receive_output {
            Some(o) => match auth::address_from_receive(o) {
                Ok(a) => Some(a),
                Err(_) => None,
            },
            None => None,
        };
        let can_receive = address.is_some();
        let human_status = human_status(wallet_dir_exists, has_keystore, can_receive, &address);
        WalletStatus {
            cli_installed: true,
            cli_path,
            wallet_dir_exists,
            has_keystore,
            can_receive,
            address,
            human_status,
        }
    }
}

/// The address that a successful `awp-wallet receive` output gives.
pub open spec fn receive_address(o: Seq<char>) -> Option<Seq<char>> {
    match json::json_parse(o) {
        Some(v) => match v.field_str("eoaAddress"@) {
            Some(a) => Some(text::lowercase(a)),
            None => match v.field_str("address"@) {
                Some(a) => Some(text::lowercase(a)),
                None => None,
            },
        },
        None => None,
    }
}

/// The wallet's state in words.
pub open spec fn human_status_spec(dir_exists: bool, has_keystore: bool, can_receive: bool, address: Option<Seq<char>>) -> Seq<char> {
    if !dir_exists {
        "No wallet — safe to run awp-wallet init"@
    } else if can_receive {
        "Wallet ready: "@ + json::or_default(address, "unknown"@)
    } else if has_keystore {
        "Wallet exists but locked — run awp-wallet unlock (DO NOT run init)"@
    } else {
        "Wallet directory exists but empty — may need init or recovery"@
    }
}

/// The wallet's state in words.
pub fn human_status(dir_exists: bool, has_keystore: bool, can_receive: bool, address: &Option<String>) -> (r: String)
    ensures
        r@ == human_status_spec(dir_exists, has_keystore, can_receive, opt_text(*address)),
{
    if !dir_exists {
        text::to_owned_string("No wallet — safe to run awp-wallet init")
    } else if can_receive {
        match address {
            Some(a) => text::concat2("Wallet ready: ", a.as_str()),
            None => text::concat2("Wallet ready: ", "unknown"),
        }
    } else if has_keystore {
        text::to_owned_string("Wallet exists but locked — run awp-wallet unlock (DO NOT run init)")
    } else {
        text::to_owned_string("Wallet directory exists but empty — may need init or recovery")
    }
}

/// `init` is never offered, nor called safe, while wallet data exists.
pub proof fn lemma_init_never_over_existing_wallet(s: WalletStatus)
    requires
        s.wallet_dir_exists || s.has_keystore || s.can_receive,
    ensures
        s.setup_command_spec() != "awp-wallet init && export AWP_WALLET_TOKEN=$(awp-wallet unlock --duration 86400 --scope full --raw)"@,
        !text::contains(s.setup_command_spec(), "init"@),
        !(!s.wallet_dir_exists && !s.has_keystore && !s.can_receive),
{
    reveal_strlit("awp-wallet init && export AWP_WALLET_TOKEN=$(awp-wallet unlock --duration 86400 --scope full --raw)");
    reveal_strlit("export AWP_WALLET_TOKEN=$(awp-wallet unlock --duration 86400 --scope full --raw)");
    reveal_strlit("predict-agent preflight");
    reveal_strlit("init");
    assert(text::pair_free_from("predict-agent preflight"@, 'i', 'n', 0)) by {
        reveal_with_fuel(text::pair_free_from, 24);
    }
    text::lemma_pair_free_absent("predict-agent preflight"@, "init"@, 0);
    assert(text::pair_free_from(
        "export AWP_WALLET_TOKEN=$(awp-wallet unlock --duration 86400 --scope full --raw)"@, 'i', 'n', 0)) by {
        reveal_with_fuel(text::pair_free_from, 82);
    }
    text::lemma_pair_free_absent(
        "export AWP_WALLET_TOKEN=$(awp-wallet unlock --duration 86400 --scope full --raw)"@, "init"@, 0);
    assert("awp-wallet init && export AWP_WALLET_TOKEN=$(awp-wallet unlock --duration 86400 --scope full --raw)"@[0]
        != "export AWP_WALLET_TOKEN=$(awp-wallet unlock --duration 86400 --scope full --raw)"@[0]);
    assert("awp-wallet init && export AWP_WALLET_TOKEN=$(awp-wallet unlock --duration 86400 --scope full --raw)"@[0]
        != "predict-agent preflight"@[0]);
}

/// Whenever the wallet tool or any wallet data is there, the suggestion
/// names the next setup command; otherwise it says to install the tool.
pub proof fn lemma_suggestion_names_setup_command(s: WalletStatus)
    ensures
        (s.cli_installed || s.can_receive || s.wallet_dir_exists || s.has_keystore)
            ==> text::contains(s.suggestion_spec(), s.setup_command_spec()),
        !(s.cli_installed || s.can_receive || s.wallet_dir_exists || s.has_keystore)
            ==> s.suggestion_spec() == "awp-wallet not installed. Install it first, then run init."@,
{
    reveal_strlit("Wallet is ready. Run: predict-agent preflight");
    reveal_strlit("Wallet exists but locked. Run: export AWP_WALLET_TOKEN=$(awp-wallet unlock --duration 86400 --scope full --raw)\nIMPORTANT: Do NOT run awp-wallet init — that would overwrite your existing wallet!");
    reveal_strlit("No wallet found. Run: awp-wallet init && export AWP_WALLET_TOKEN=$(awp-wallet unlock --duration 86400 --scope full --raw)");
    reveal_strlit("predict-agent preflight");
    reveal_strlit("export AWP_WALLET_TOKEN=$(awp-wallet unlock --duration 86400 --scope full --raw)");
    reveal_strlit("awp-wallet init && export AWP_WALLET_TOKEN=$(awp-wallet unlock --duration 86400 --scope full --raw)");
    if s.can_receive {
        assert("Wallet is ready. Run: predict-agent preflight"@.subrange(22, 22int + "predict-agent preflight"@.len()) =~= "predict-agent preflight"@);
        text::lemma_match_found("Wallet is ready. Run: predict-agent preflight"@, "predict-agent preflight"@, 0, 22);
    } else if s.wallet_dir_exists || s.has_keystore {
        assert("Wallet exists but locked. Run: export AWP_WALLET_TOKEN=$(awp-wallet unlock --duration 86400 --scope full --raw)\nIMPORTANT: Do NOT run awp-wallet init — that would overwrite your existing wallet!"@.subrange(31, 31int + "export AWP_WALLET_TOKEN=$(awp-wallet unlock --duration 86400 --scope full --raw)"@.len()) =~= "export AWP_WALLET_TOKEN=$(awp-wallet unlock --duration 86400 --scope full --raw)"@);
        text::lemma_match_found("Wallet exists but locked. Run: export AWP_WALLET_TOKEN=$(awp-wallet unlock --duration 86400 --scope full --raw)\nIMPORTANT: Do NOT run awp-wallet init — that would overwrite your existing wallet!"@, "export AWP_WALLET_TOKEN=$(awp-wallet unlock --duration 86400 --scope full --raw)"@, 0, 31);
    } else if s.cli_installed {
        assert("No wallet found. Run: awp-wallet init && export AWP_WALLET_TOKEN=$(awp-wallet unlock --duration 86400 --scope full --raw)"@.subrange(22, 22int + "awp-wallet init && export AWP_WALLET_TOKEN=$(awp-wallet unlock --duration 86400 --scope full --raw)"@.len()) =~= "awp-wallet init && export AWP_WALLET_TOKEN=$(awp-wallet unlock --duration 86400 --scope full --raw)"@);
        text::lemma_match_found("No wallet found. Run: awp-wallet init && export AWP_WALLET_TOKEN=$(awp-wallet unlock --duration 86400 --scope full --raw)"@, "awp-wallet init && export AWP_WALLET_TOKEN=$(awp-wallet unlock --duration 86400 --scope full --raw)"@, 0, 22);
    }
}

/// A JSON string, or `null` when absent.
pub open spec fn str_or_null(j: Json, o: Option<Seq<char>>) -> bool {
    match o {
        Some(s) => j.str_spec() == Some(s),
        None => j is Null,
    }
}

fn jstr_or_null(o: &Option<String>) -> (r: Json)
    ensures
        str_or_null(r, opt_text(*o)),
{
    match o {
        Some(s) => json::jstr(s.as_str()),
        None => Json::Null,
    }
}

/// The message of the wallet check.
pub open spec fn wallet_check_message(s: WalletStatus) -> Seq<char> {
    if s.can_receive {
        "Wallet ready: "@ + json::or_default(opt_text(s.address), "unknown"@)
    } else if s.wallet_dir_exists || s.has_keystore {
        "Wallet exists but locked. Run unlock command (see suggestion). DO NOT run init."@
    } else if s.cli_installed {
        "No wallet found. Safe to run awp-wallet init."@
    } else {
        "awp-wallet CLI not installed."@
    }
}

/// The output of the wallet check: success with the address when the wallet
/// is accessible; otherwise an error that says what is safe to do next.
pub fn wallet_check_output(s: &WalletStatus, wallet_dir: &str) -> (r: Output)
    ensures
        s.can_receive ==> {
            &&& r.is_success(wallet_check_message(*s))
            &&& keys_of(r.data_spec()) == seq!["status"@, "address"@, "cli_path"@, "safe_to_init"@]
            &&& r.data_spec().field_str("status"@) == Some("ready"@)
            &&& str_or_null(r.data_spec().get_spec("address"@).unwrap(), opt_text(s.address))
            &&& str_or_null(r.data_spec().get_spec("cli_path"@).unwrap(), opt_text(s.cli_path))
            &&& r.data_spec().field_bool("safe_to_init"@) == Some(!s.wallet_dir_exists && !s.has_keystore && !s.can_receive)
            &&& r._internal.next_action@ == "ready"@
            &&& opt_text(r._internal.next_command) == Some("predict-agent preflight"@)
            &&& opt_text(r._internal.progress) == Some("1/4"@)
            &&& r._internal.wait_seconds is None && r._internal.submittable_markets is None
            &&& r._internal.context is None && r._internal.options is None
        },
        !s.can_receive ==> {
            &&& r.is_failure(wallet_check_message(*s),
                if s.cli_installed { "WALLET_LOCKED"@ } else { "CLI_NOT_INSTALLED"@ },
                "wallet"@, false, s.suggestion_spec())
            &&& keys_of(r.debug_spec()) == seq!["cli_installed"@, "cli_path"@, "wallet_dir_exists"@, "wallet_dir"@,
                "has_keystore"@, "can_receive"@, "safe_to_init"@, "human_status"@]
            &&& r.debug_spec().field_bool("cli_installed"@) == Some(s.cli_installed)
            &&& str_or_null(r.debug_spec().get_spec("cli_path"@).unwrap(), opt_text(s.cli_path))
            &&& r.debug_spec().field_bool("wallet_dir_exists"@) == Some(s.wallet_dir_exists)
            &&& r.debug_spec().field_str("wallet_dir"@) == Some(wallet_dir@)
            &&& r.debug_spec().field_bool("has_keystore"@) == Some(s.has_keystore)
            &&& r.debug_spec().field_bool("can_receive"@) == Some(s.can_receive)
            &&& r.debug_spec().field_bool("safe_to_init"@) == Some(!s.wallet_dir_exists && !s.has_keystore && !s.can_receive)
            &&& r.debug_spec().field_str("human_status"@) == Some(s.human_status@)
            &&& r._internal.next_action@ == "configure_wallet"@
            &&& opt_text(r._internal.next_command) == Some(s.setup_command_spec())
            &&& opt_text(r._internal.progress) == Some("0/4"@)
            &&& r._internal.wait_seconds is None && r._internal.submittable_markets is None
            &&& r._internal.context is None && r._internal.options is None
        },
{
    proof {
        reveal_strlit("status");
        reveal_strlit("address");
        reveal_strlit("cli_path");
        reveal_strlit("safe_to_init");
        reveal_strlit("cli_installed");
        reveal_strlit("wallet_dir_exists");
        reveal_strlit("wallet_dir");
        reveal_strlit("has_keystore");
        reveal_strlit("can_receive");
        reveal_strlit("human_status");
        reveal_with_fuel(json::member_index_from, 9);
    }
    if s.can_receive {
        let msg = match &s.address {
            Some(a) => text::concat2("Wallet ready: ", a.as_str()),
            None => text::concat2("Wallet ready: ", "unknown"),
        };
        assert("status"@[0] != "address"@[0] && "status"@[0] != "cli_path"@[0] && "status"@.len() != "safe_to_init"@.len());
        assert("address"@[0] != "cli_path"@[0] && "address"@[0] != "safe_to_init"@[0] && "cli_path"@[0] != "safe_to_init"@[0]);
        let data = Json::Object(vec![
            (text::to_owned_string("status"), json::jstr("ready")),
            (text::to_owned_string("address"), jstr_or_null(&s.address)),
            (text::to_owned_string("cli_path"), jstr_or_null(&s.cli_path)),
            (text::to_owned_string("safe_to_init"), Json::Bool(s.safe_to_init())),
        ]);
        assert(keys_of(data) =~= seq!["status"@, "address"@, "cli_path"@, "safe_to_init"@]);
        let internal = Internal {
            next_action: text::to_owned_string("ready"),
            next_command: Some(text::to_owned_string("predict-agent preflight")),
            wait_seconds: None,
            submittable_markets: None,
            context: None,
            progress: Some(text::to_owned_string("1/4")),
            options: None,
        };
        Output::success(msg, data, internal)
    } else {
        let msg = if s.wallet_dir_exists || s.has_keystore {
            text::to_owned_string("Wallet exists but locked. Run unlock command (see suggestion). DO NOT run init.")
        } else if s.cli_installed {
            text::to_owned_string("No wallet found. Safe to run awp-wallet init.")
        } else {
            text::to_owned_string("awp-wallet CLI not installed.")
        };
        let code = if s.cli_installed { "WALLET_LOCKED" } else { "CLI_NOT_INSTALLED" };
        assert("cli_installed"@.len() == 13 && "cli_path"@.len() == 8 && "wallet_dir_exists"@.len() == 17);
        assert("wallet_dir"@.len() == 10 && "has_keystore"@.len() == 12 && "can_receive"@.len() == 11);
        assert("safe_to_init"@.len() == 12 && "human_status"@.len() == 12);
        assert("has_keystore"@[0] != "safe_to_init"@[0] && "has_keystore"@[0] != "human_status"@[1]);
        assert("safe_to_init"@[0] != "human_status"@[0]);
        let debug = Json::Object(vec![
            (text::to_owned_string("cli_installed"), Json::Bool(s.cli_installed)),
            (text::to_owned_string("cli_path"), jstr_or_null(&s.cli_path)),
            (text::to_owned_string("wallet_dir_exists"), Json::Bool(s.wallet_dir_exists)),
            (text::to_owned_string("wallet_dir"), json::jstr(wallet_dir)),
            (text::to_owned_string("has_keystore"), Json::Bool(s.has_keystore)),
            (text::to_owned_string("can_receive"), Json::Bool(s.can_receive)),
            (text::to_owned_string("safe_to_init"), Json::Bool(s.safe_to_init())),
            (text::to_owned_string("human_status"), json::jstr(s.human_status.as_str())),
        ]);
        assert(keys_of(debug) =~= seq!["cli_installed"@, "cli_path"@, "wallet_dir_exists"@, "wallet_dir"@,
            "has_keystore"@, "can_receive"@, "safe_to_init"@, "human_status"@]);
        let internal = Internal {
            next_action: text::to_owned_string("configure_wallet"),
            next_command: Some(text::to_owned_string(s.setup_command())),
            wait_seconds: None,
            submittable_markets: None,
            context: None,
            progress: Some(text::to_owned_string("0/4")),
            options: None,
        };
        Output::error_with_debug(
            msg,
            text::to_owned_string(code),
            text::to_owned_string("wallet"),
            false,
            s.suggestion(),
            debug,
            internal,
        )
    }
}

} // verus!
