//! The configuration of a deployment, and the code that is deployed.
use crate::account::{is_account_id, AccountId};
use crate::deploy::cli::{DeployArgs, Network};
use crate::deploy::credentials::{parse_account_id, Credentials, CredentialsView};
use crate::digest::{hex_text, sha256_hex, sha256_of};
use crate::model::wasm_magic;
use crate::text::{debug_text, join2, trim, trimmed};
use vstd::prelude::*;

verus! {

/// Code with its SHA-256 hash.
#[derive(Debug)]
pub struct WasmArtifact {
    pub bytes: Vec<u8>,
    pub sha256: String,
}

/// What was found where code was looked for.
#[derive(Debug)]
pub enum WasmFile {
    Missing,
    /// Something that is no regular file.
    NotAFile,
    /// A file of this size that could not be read.
    Unreadable(u64),
    /// A file of this size with these contents.
    Read(u64, Vec<u8>),
}

/// What a file of code is refused for: it must be a regular file of at least eight bytes that
/// starts as a WASM module does.
pub open spec fn wasm_fault(path: Seq<char>, file: WasmFile) -> Option<Seq<char>> {
    match file {
        WasmFile::Missing => Some("cannot stat WASM "@ + path),
        WasmFile::NotAFile => Some("WASM path is not a regular file: "@ + path),
        WasmFile::Unreadable(size) => if size < 8 {
            Some("WASM file is too small: "@ + path)
        } else {
            Some("cannot read WASM "@ + path)
        },
        WasmFile::Read(size, bytes) => if size < 8 {
            Some("WASM file is too small: "@ + path)
        } else if !(bytes@.len() >= 4 && bytes@.take(4) == wasm_magic()) {
            Some("file is not a WebAssembly binary: "@ + path)
        } else {
            None
        },
    }
}

fn starts_as_wasm(bytes: &Vec<u8>) -> (r: bool)
    ensures
        r == (bytes@.len() >= 4 && bytes@.take(4) == wasm_magic()),
{
    if bytes.len() < 4 {
        return false;
    }
    if bytes[0] != 0 || bytes[1] != 0x61 || bytes[2] != 0x73 || bytes[3] != 0x6d {
        assert(bytes@.take(4)[0] == bytes@[0]);
        assert(bytes@.take(4)[1] == bytes@[1]);
        assert(bytes@.take(4)[2] == bytes@[2]);
        assert(bytes@.take(4)[3] == bytes@[3]);
        return false;
    }
    assert(bytes@.take(4) =~= wasm_magic());
    true
}

/// The code in the file at `path`, if it is code.
pub fn read_wasm(path: &str, file: WasmFile) -> (r: Result<WasmArtifact, String>)
    ensures
        match r {
            Ok(artifact) => wasm_fault(path@, file) is None && file is Read && artifact.bytes@
                == file->Read_1@ && artifact.sha256@ == hex_text(sha256_of(file->Read_1@))
                && artifact.sha256@.len() == 64,
            Err(message) => wasm_fault(path@, file) == Some(message@),
        },
{
    match file {
        WasmFile::Missing => Err(join2("cannot stat WASM ", path)),
        WasmFile::NotAFile => Err(join2("WASM path is not a regular file: ", path)),
        WasmFile::Unreadable(size) => if size < 8 {
            Err(join2("WASM file is too small: ", path))
        } else {
            Err(join2("cannot read WASM ", path))
        },
        WasmFile::Read(size, bytes) => {
            if size < 8 {
                return Err(join2("WASM file is too small: ", path));
            }
            if !starts_as_wasm(&bytes) {
                return Err(join2("file is not a WebAssembly binary: ", path));
            }
            let sha256: String = sha256_hex(&bytes);
            Ok(WasmArtifact { bytes, sha256 })
        },
    }
}

/// What is deployed, where and by whom. Amounts are in yoctoNEAR.
pub struct DeploymentConfig {
    pub network: Network,
    pub signer: Credentials,
    pub controller_id: AccountId,
    pub token_id: AccountId,
    pub controller_wasm: WasmArtifact,
    pub token_wasm: WasmArtifact,
    pub token_name: String,
    pub token_symbol: String,
    pub token_decimals: u8,
    pub total_supply: u128,
    pub initial_price: u128,
    pub initial_balance: u128,
    pub redeploy: bool,
    pub dry_run: bool,
    pub test_mode: bool,
    pub yes: bool,
}

/// What arguments are refused for before anything is looked up.
pub open spec fn argument_fault(args: DeployArgs) -> Option<Seq<char>> {
    if args.token_decimals == 0 {
        Some("token decimals must be between 1 and 255"@)
    } else if trimmed(args.token_name@).len() == 0 || trimmed(args.token_symbol@).len() == 0 {
        Some("token name and symbol must not be empty"@)
    } else {
        None
    }
}

/// The account of the controller: the one that was named, else the one below the signer.
pub open spec fn controller_text(args: DeployArgs, signer: Seq<char>) -> Seq<char> {
    match args.controller_id {
        Some(id) => id@,
        None => "controller."@ + signer,
    }
}

/// The account of the token: the one that was named, else the one below the signer.
pub open spec fn token_text(args: DeployArgs, signer: Seq<char>) -> Seq<char> {
    match args.token_id {
        Some(id) => id@,
        None => "token."@ + signer,
    }
}

/// What a configuration is refused for, once the signer is known.
pub open spec fn config_fault(
    args: DeployArgs,
    signer: Seq<char>,
    controller_wasm: WasmFile,
    token_wasm: WasmFile,
) -> Option<Seq<char>> {
    if !is_account_id(controller_text(args, signer)) {
        Some("invalid "@ + "controller"@ + " account ID: "@ + debug_text(controller_text(args, signer)))
    } else if !is_account_id(token_text(args, signer)) {
        Some("invalid "@ + "token"@ + " account ID: "@ + debug_text(token_text(args, signer)))
    } else if args.total_supply == 0 {
        Some("total supply must be greater than zero"@)
    } else if args.initial_price == 0 {
        Some("initial price must be greater than zero"@)
    } else if wasm_fault(args.controller_wasm@, controller_wasm) is Some {
        wasm_fault(args.controller_wasm@, controller_wasm)
    } else {
        wasm_fault(args.token_wasm@, token_wasm)
    }
}

/// Whether `c` is what the arguments configure for a signer and these files of code.
pub open spec fn configures(
    args: DeployArgs,
    signer: CredentialsView,
    controller_wasm: WasmFile,
    token_wasm: WasmFile,
    c: DeploymentConfig,
) -> bool {
    &&& c.network == args.network
    &&& c.signer@ == signer
    &&& c.controller_id@ == controller_text(args, signer.account)
    &&& c.token_id@ == token_text(args, signer.account)
    &&& c.controller_wasm.bytes@ == controller_wasm->Read_1@
    &&& c.controller_wasm.sha256@ == hex_text(sha256_of(controller_wasm->Read_1@))
    &&& c.token_wasm.bytes@ == token_wasm->Read_1@
    &&& c.token_wasm.sha256@ == hex_text(sha256_of(token_wasm->Read_1@))
    &&& c.token_name@ == args.token_name@
    &&& c.token_symbol@ == args.token_symbol@
    &&& c.token_decimals == args.token_decimals
    &&& c.total_supply == args.total_supply
    &&& c.initial_price == args.initial_price
    &&& c.initial_balance == args.initial_balance
    &&& c.redeploy == args.redeploy
    &&& c.dry_run == args.dry_run
    &&& c.test_mode == args.test_mode
    &&& c.yes == args.yes
}

/// Whether arguments are sound, before anything is looked up.
pub fn check_arguments(args: &DeployArgs) -> (r: Result<(), String>)
    ensures
        match r {
            Ok(()) => argument_fault(*args) is None,
            Err(message) => argument_fault(*args) == Some(message@),
        },
{
    if args.token_decimals == 0 {
        return Err("token decimals must be between 1 and 255".to_owned());
    }
    if trim(args.token_name.as_str()).is_empty() || trim(args.token_symbol.as_str()).is_empty() {
        return Err("token name and symbol must not be empty".to_owned());
    }
    Ok(())
}

/// Puts the configuration of a deployment together, from the arguments, what came of the search for
/// the signer, and the files of code. The first thing that is wrong is told.
pub fn build_config(
    args: DeployArgs,
    signer: Result<Credentials, String>,
    controller_wasm: WasmFile,
    token_wasm: WasmFile,
) -> (r: Result<DeploymentConfig, String>)
    ensures
        match r {
            Ok(c) => argument_fault(args) is None && signer is Ok && config_fault(
                args,
                signer->Ok_0@.account,
                controller_wasm,
                token_wasm,
            ) is None && configures(args, signer->Ok_0@, controller_wasm, token_wasm, c),
            Err(message) => match argument_fault(args) {
                Some(fault) => message@ == fault,
                None => match signer {
                    Err(fault) => message@ == fault@,
                    Ok(s) => config_fault(args, s@.account, controller_wasm, token_wasm) == Some(
                        message@,
                    ),
                },
            },
        },
{
    match check_arguments(&args) {
        Ok(()) => {},
        Err(message) => {
            return Err(message);
        },
    }
    let signer: Credentials = match signer {
        Ok(s) => s,
        Err(message) => {
            return Err(message);
        },
    };
    let controller_name: String = match &args.controller_id {
        Some(id) => id.clone(),
        None => join2("controller.", signer.account_id.as_str()),
    };
    let controller_id: AccountId = match parse_account_id(controller_name.as_str(), "controller") {
        Ok(id) => id,
        Err(message) => {
            return Err(message);
        },
    };
    let token_name: String = match &args.token_id {
        Some(id) => id.clone(),
        None => join2("token.", signer.account_id.as_str()),
    };
    let token_id: AccountId = match parse_account_id(token_name.as_str(), "token") {
        Ok(id) => id,
        Err(message) => {
            return Err(message);
        },
    };
    if args.total_supply == 0 {
        return Err("total supply must be greater than zero".to_owned());
    }
    if args.initial_price == 0 {
        return Err("initial price must be greater than zero".to_owned());
    }
    let controller_wasm: WasmArtifact = match read_wasm(
        args.controller_wasm.as_str(),
        controller_wasm,
    ) {
        Ok(artifact) => artifact,
        Err(message) => {
            return Err(message);
        },
    };
    let token_wasm: WasmArtifact = match read_wasm(args.token_wasm.as_str(), token_wasm) {
        Ok(artifact) => artifact,
        Err(message) => {
            return Err(message);
        },
    };
    Ok(
        DeploymentConfig {
            network: args.network,
            signer,
            controller_id,
            token_id,
            controller_wasm,
            token_wasm,
            token_name: args.token_name,
            token_symbol: args.token_symbol,
            token_decimals: args.token_decimals,
            total_supply: args.total_supply,
            initial_price: args.initial_price,
            initial_balance: args.initial_balance,
            redeploy: args.redeploy,
            dry_run: args.dry_run,
            test_mode: args.test_mode,
            yes: args.yes,
        },
    )
}

} // verus!
