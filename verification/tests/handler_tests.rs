//! End-to-end handler scenarios through the dispatcher, with the real
//! derivation and token-record routines linked in.

use echo_core::account::AccountView;
use echo_core::codec::{
    decode_authorized_header, decode_vending_header, encode_authorized_header,
    encode_vending_header, AuthorizedBufferHeader, VendingMachineBufferHeader,
};
use echo_core::error::EchoError;
use echo_core::pda::find_program_address;
use echo_core::processor::{EchoAction, EchoInstruction, Processor};
use echo_core::seeds::{build_auth_seeds, build_vending_seeds};

fn acct(key: Vec<u8>, is_writable: bool, is_signer: bool, data: Vec<u8>) -> AccountView {
    AccountView {
        key,
        is_writable,
        is_signer,
        data,
    }
}

fn system_id() -> Vec<u8> {
    solana_system_interface::program::ID.to_bytes().to_vec()
}

/// A 165-byte token-account record: mint, owner, little-endian balance, all
/// optional fields absent, state byte zero.
fn token_account_bytes(mint: &[u8], owner: &[u8], amount: u64) -> Vec<u8> {
    let mut b = vec![0u8; 165];
    b[0..32].copy_from_slice(mint);
    b[32..64].copy_from_slice(owner);
    b[64..72].copy_from_slice(&amount.to_le_bytes());
    b
}

/// An 82-byte mint record with all optional fields absent.
fn mint_bytes() -> Vec<u8> {
    vec![0u8; 82]
}

// ---- unauthenticated echo ----

#[test]
fn echo_writes_shorter_data() {
    let pid = vec![3u8; 32];
    let mut accounts = vec![acct(vec![7u8; 32], true, false, vec![0u8; 10])];
    let r = Processor::process_instruction(
        &pid,
        &mut accounts,
        EchoInstruction::Echo { data: vec![1, 2, 3] },
    );
    assert!(matches!(r, Ok(EchoAction::Done)));
    assert_eq!(accounts[0].data, vec![1, 2, 3, 0, 0, 0, 0, 0, 0, 0]);
}

#[test]
fn echo_truncates_longer_data() {
    let pid = vec![3u8; 32];
    let mut accounts = vec![acct(vec![7u8; 32], true, false, vec![0u8; 2])];
    let r = Processor::process_instruction(
        &pid,
        &mut accounts,
        EchoInstruction::Echo { data: vec![9, 8, 7] },
    );
    assert!(matches!(r, Ok(EchoAction::Done)));
    assert_eq!(accounts[0].data, vec![9, 8]);
}

#[test]
fn echo_exact_size() {
    let pid = vec![3u8; 32];
    let mut accounts = vec![acct(vec![7u8; 32], true, false, vec![0u8; 3])];
    let r = Processor::process_instruction(
        &pid,
        &mut accounts,
        EchoInstruction::Echo { data: vec![4, 5, 6] },
    );
    assert!(matches!(r, Ok(EchoAction::Done)));
    assert_eq!(accounts[0].data, vec![4, 5, 6]);
}

#[test]
fn echo_empty_buffer_fails() {
    let pid = vec![3u8; 32];
    let mut accounts = vec![acct(vec![7u8; 32], true, false, Vec::new())];
    let r = Processor::process_instruction(
        &pid,
        &mut accounts,
        EchoInstruction::Echo { data: vec![1] },
    );
    assert!(matches!(r, Err(EchoError::AccountNotInitialized)));
    assert!(accounts[0].data.is_empty());
}

#[test]
fn echo_nonzero_buffer_fails_unchanged() {
    let pid = vec![3u8; 32];
    let before = vec![0, 0, 5, 0];
    let mut accounts = vec![acct(vec![7u8; 32], true, false, before.clone())];
    let r = Processor::process_instruction(
        &pid,
        &mut accounts,
        EchoInstruction::Echo { data: vec![1, 2] },
    );
    assert!(matches!(r, Err(EchoError::AccountHasNonZeroData)));
    assert_eq!(accounts[0].data, before);
}

#[test]
fn echo_not_writable_fails() {
    let pid = vec![3u8; 32];
    let mut accounts = vec![acct(vec![7u8; 32], false, false, vec![0u8; 4])];
    let r = Processor::process_instruction(
        &pid,
        &mut accounts,
        EchoInstruction::Echo { data: vec![1] },
    );
    assert!(matches!(r, Err(EchoError::AccountMustBeWritable)));
}

#[test]
fn echo_no_accounts_fails() {
    let pid = vec![3u8; 32];
    let mut accounts: Vec<AccountView> = Vec::new();
    let r = Processor::process_instruction(
        &pid,
        &mut accounts,
        EchoInstruction::Echo { data: vec![1] },
    );
    assert!(matches!(r, Err(EchoError::NotEnoughAccountKeys)));
}

// ---- authority-gated echo ----

fn authorized_buffer(pid: &Vec<u8>, authority: &Vec<u8>, buffer_seed: u64, size: usize) -> (AccountView, u8) {
    let seeds = build_auth_seeds(authority, buffer_seed);
    let (address, bump) = find_program_address(&seeds, pid).unwrap();
    let mut data = encode_authorized_header(&AuthorizedBufferHeader {
        buffer_seed,
        bump_seed: bump,
    });
    data.resize(size, 0);
    (acct(address, true, false, data), bump)
}

#[test]
fn authorized_echo_pads_payload() {
    // A 41-byte buffer: 9-byte header plus a 32-byte payload region.
    let pid = vec![3u8; 32];
    let authority = vec![5u8; 32];
    let (buffer, _) = authorized_buffer(&pid, &authority, 42, 41);
    let header_before = buffer.data[..9].to_vec();
    let mut accounts = vec![buffer, acct(authority, false, true, Vec::new())];
    let r = Processor::process_instruction(
        &pid,
        &mut accounts,
        EchoInstruction::AuthorizedEcho { data: vec![1, 2, 3] },
    );
    assert!(matches!(r, Ok(EchoAction::Done)));
    assert_eq!(accounts[0].data[..9], header_before[..]);
    let mut expected = vec![1u8, 2, 3];
    expected.extend(std::iter::repeat(0).take(29));
    assert_eq!(accounts[0].data[9..], expected[..]);
}

#[test]
fn authorized_echo_overwrites_stale_payload() {
    let pid = vec![3u8; 32];
    let authority = vec![5u8; 32];
    let (mut buffer, _) = authorized_buffer(&pid, &authority, 42, 20);
    for b in buffer.data[9..].iter_mut() {
        *b = 0xaa;
    }
    let mut accounts = vec![buffer, acct(authority, false, true, Vec::new())];
    let r = Processor::process_instruction(
        &pid,
        &mut accounts,
        EchoInstruction::AuthorizedEcho { data: vec![7] },
    );
    assert!(matches!(r, Ok(EchoAction::Done)));
    let mut expected = vec![7u8];
    expected.extend(std::iter::repeat(0).take(10));
    assert_eq!(accounts[0].data[9..], expected[..]);
}

#[test]
fn authorized_echo_wrong_address_fails() {
    // Same well-formed header, but the account sits at another address.
    let pid = vec![3u8; 32];
    let authority = vec![5u8; 32];
    let (mut buffer, _) = authorized_buffer(&pid, &authority, 42, 41);
    buffer.key = vec![9u8; 32];
    let before = buffer.data.clone();
    let mut accounts = vec![buffer, acct(authority, false, true, Vec::new())];
    let r = Processor::process_instruction(
        &pid,
        &mut accounts,
        EchoInstruction::AuthorizedEcho { data: vec![1, 2, 3] },
    );
    assert!(matches!(r, Err(EchoError::InvalidAccountAddress)));
    assert_eq!(accounts[0].data, before);
}

#[test]
fn authorized_echo_needs_signer() {
    let pid = vec![3u8; 32];
    let authority = vec![5u8; 32];
    let (buffer, _) = authorized_buffer(&pid, &authority, 42, 41);
    let mut accounts = vec![buffer, acct(authority, false, false, Vec::new())];
    let r = Processor::process_instruction(
        &pid,
        &mut accounts,
        EchoInstruction::AuthorizedEcho { data: vec![1] },
    );
    assert!(matches!(r, Err(EchoError::MissingRequiredSignature)));
}

#[test]
fn authorized_echo_short_buffer_fails() {
    let pid = vec![3u8; 32];
    let authority = vec![5u8; 32];
    let buffer = acct(vec![8u8; 32], true, false, vec![0u8; 5]);
    let mut accounts = vec![buffer, acct(authority, false, true, Vec::new())];
    let r = Processor::process_instruction(
        &pid,
        &mut accounts,
        EchoInstruction::AuthorizedEcho { data: vec![1] },
    );
    assert!(matches!(r, Err(EchoError::AccountNotInitialized)));
}

// ---- priced echo ----

fn vending_setup(pid: &Vec<u8>, price: u64, balance: u64, size: usize) -> Vec<AccountView> {
    let mint_key = vec![4u8; 32];
    let user_key = vec![6u8; 32];
    let seeds = build_vending_seeds(&mint_key, price);
    let (address, bump) = find_program_address(&seeds, pid).unwrap();
    let mut data = encode_vending_header(&VendingMachineBufferHeader {
        bump_seed: bump,
        price,
    });
    data.resize(size, 0);
    vec![
        acct(address, true, false, data),
        acct(user_key.clone(), false, true, Vec::new()),
        acct(
            vec![11u8; 32],
            true,
            false,
            token_account_bytes(&mint_key, &user_key, balance),
        ),
        acct(mint_key, false, false, mint_bytes()),
        acct(vec![12u8; 32], false, false, Vec::new()),
    ]
}

#[test]
fn vending_echo_burns_and_writes() {
    let pid = vec![3u8; 32];
    let mut accounts = vending_setup(&pid, 100, 150, 20);
    let r = Processor::process_instruction(
        &pid,
        &mut accounts,
        EchoInstruction::VendingMachineEcho { data: vec![1, 2] },
    );
    match r {
        Ok(EchoAction::Burn(a)) => {
            assert_eq!(a.amount, 100);
            assert_eq!(a.token_account, vec![11u8; 32]);
            assert_eq!(a.mint, vec![4u8; 32]);
            assert_eq!(a.user, vec![6u8; 32]);
            assert_eq!(a.token_service, vec![12u8; 32]);
        }
        _ => panic!("expected a burn"),
    }
    let mut expected = vec![1u8, 2];
    expected.extend(std::iter::repeat(0).take(9));
    assert_eq!(accounts[0].data[9..], expected[..]);
}

#[test]
fn vending_echo_insufficient_funds() {
    // Price 100, balance 50: the operation fails before any burn or write.
    let pid = vec![3u8; 32];
    let mut accounts = vending_setup(&pid, 100, 50, 20);
    let before = accounts[0].data.clone();
    let r = Processor::process_instruction(
        &pid,
        &mut accounts,
        EchoInstruction::VendingMachineEcho { data: vec![1, 2] },
    );
    assert!(matches!(r, Err(EchoError::InsufficientFunds)));
    assert_eq!(accounts[0].data, before);
}

#[test]
fn vending_echo_wrong_owner_fails() {
    let pid = vec![3u8; 32];
    let mut accounts = vending_setup(&pid, 100, 150, 20);
    accounts[2].data = token_account_bytes(&vec![4u8; 32], &vec![13u8; 32], 150);
    let r = Processor::process_instruction(
        &pid,
        &mut accounts,
        EchoInstruction::VendingMachineEcho { data: vec![1] },
    );
    assert!(matches!(r, Err(EchoError::InvalidAccountData)));
}

#[test]
fn vending_echo_wrong_mint_fails() {
    let pid = vec![3u8; 32];
    let mut accounts = vending_setup(&pid, 100, 150, 20);
    accounts[2].data = token_account_bytes(&vec![14u8; 32], &vec![6u8; 32], 150);
    let r = Processor::process_instruction(
        &pid,
        &mut accounts,
        EchoInstruction::VendingMachineEcho { data: vec![1] },
    );
    assert!(matches!(r, Err(EchoError::InvalidAccountData)));
}

#[test]
fn vending_echo_malformed_records_fail() {
    let pid = vec![3u8; 32];

    // A mint record of the wrong length does not parse.
    let mut accounts = vending_setup(&pid, 100, 150, 20);
    accounts[3].data = vec![0u8; 81];
    let r = Processor::process_instruction(
        &pid,
        &mut accounts,
        EchoInstruction::VendingMachineEcho { data: vec![1] },
    );
    assert!(matches!(r, Err(EchoError::InvalidAccountData)));

    // A token record with an out-of-range optional-field tag does not parse.
    let mut accounts = vending_setup(&pid, 100, 150, 20);
    accounts[2].data[72] = 7;
    let r = Processor::process_instruction(
        &pid,
        &mut accounts,
        EchoInstruction::VendingMachineEcho { data: vec![1] },
    );
    assert!(matches!(r, Err(EchoError::InvalidAccountData)));
}

// ---- initialization ----

#[test]
fn initialize_authorized_then_echo() {
    let pid = vec![3u8; 32];
    let authority = vec![5u8; 32];
    let seeds = build_auth_seeds(&authority, 42);
    let (address, bump) = find_program_address(&seeds, &pid).unwrap();
    let mut accounts = vec![
        acct(address.clone(), true, false, Vec::new()),
        acct(authority.clone(), false, false, Vec::new()),
        acct(vec![6u8; 32], false, true, Vec::new()),
        acct(system_id(), false, false, Vec::new()),
    ];
    let r = Processor::process_instruction(
        &pid,
        &mut accounts,
        EchoInstruction::InitializeAuthorizedEcho {
            buffer_seed: 42,
            buffer_size: 41,
        },
    );
    let plan = match r {
        Ok(EchoAction::Create(p)) => p,
        _ => panic!("expected a creation plan"),
    };
    assert_eq!(plan.new_account, address);
    assert_eq!(plan.payer, vec![6u8; 32]);
    assert_eq!(plan.size, 41);
    assert_eq!(plan.bump_seed, bump);
    assert_eq!(plan.seeds.len(), 4);
    assert_eq!(plan.seeds[0], b"authority".to_vec());
    assert_eq!(plan.seeds[3], vec![bump]);

    // The system service created the account: 41 fresh zero bytes.
    accounts[0].data = vec![0u8; 41];
    echo_core::processor::initialize_authorized_echo::store_header(&mut accounts, 42, bump)
        .unwrap();
    let header = decode_authorized_header(&accounts[0].data).unwrap();
    assert_eq!(
        header,
        AuthorizedBufferHeader {
            buffer_seed: 42,
            bump_seed: bump
        }
    );
    assert!(accounts[0].data[9..].iter().all(|b| *b == 0));

    // The buffer now accepts an authority-gated echo.
    let mut echo_accounts = vec![
        accounts[0].clone(),
        acct(authority, false, true, Vec::new()),
    ];
    let r = Processor::process_instruction(
        &pid,
        &mut echo_accounts,
        EchoInstruction::AuthorizedEcho { data: vec![1, 2, 3] },
    );
    assert!(matches!(r, Ok(EchoAction::Done)));
    assert_eq!(echo_accounts[0].data[9..12], [1, 2, 3]);
}

#[test]
fn initialize_vending_then_echo() {
    let pid = vec![3u8; 32];
    let mint_key = vec![4u8; 32];
    let seeds = build_vending_seeds(&mint_key, 100);
    let (address, bump) = find_program_address(&seeds, &pid).unwrap();
    let mut accounts = vec![
        acct(address.clone(), true, false, Vec::new()),
        acct(mint_key.clone(), false, false, mint_bytes()),
        acct(vec![6u8; 32], false, true, Vec::new()),
        acct(system_id(), false, false, Vec::new()),
    ];
    let r = Processor::process_instruction(
        &pid,
        &mut accounts,
        EchoInstruction::InitializeVendingMachineEcho {
            price: 100,
            buffer_size: 20,
        },
    );
    let plan = match r {
        Ok(EchoAction::Create(p)) => p,
        _ => panic!("expected a creation plan"),
    };
    assert_eq!(plan.new_account, address);
    assert_eq!(plan.seeds[0], b"vending_machine".to_vec());
    assert_eq!(plan.seeds[3], vec![bump]);

    accounts[0].data = vec![0u8; 20];
    echo_core::processor::initialize_vending_machine_echo::store_header(&mut accounts, 100, bump)
        .unwrap();
    let header = decode_vending_header(&accounts[0].data).unwrap();
    assert_eq!(
        header,
        VendingMachineBufferHeader {
            bump_seed: bump,
            price: 100
        }
    );
}

#[test]
fn initialize_rejects_wrong_system_service() {
    let pid = vec![3u8; 32];
    let authority = vec![5u8; 32];
    let seeds = build_auth_seeds(&authority, 42);
    let (address, _) = find_program_address(&seeds, &pid).unwrap();
    let mut accounts = vec![
        acct(address, true, false, Vec::new()),
        acct(authority, false, false, Vec::new()),
        acct(vec![6u8; 32], false, true, Vec::new()),
        acct(vec![7u8; 32], false, false, Vec::new()),
    ];
    let r = Processor::process_instruction(
        &pid,
        &mut accounts,
        EchoInstruction::InitializeAuthorizedEcho {
            buffer_seed: 42,
            buffer_size: 41,
        },
    );
    assert!(matches!(r, Err(EchoError::InvalidProgramAddress)));
}

#[test]
fn initialize_rejects_undersized_buffer() {
    let pid = vec![3u8; 32];
    let authority = vec![5u8; 32];
    let seeds = build_auth_seeds(&authority, 42);
    let (address, _) = find_program_address(&seeds, &pid).unwrap();
    let mut accounts = vec![
        acct(address, true, false, Vec::new()),
        acct(authority, false, false, Vec::new()),
        acct(vec![6u8; 32], false, true, Vec::new()),
        acct(system_id(), false, false, Vec::new()),
    ];
    let r = Processor::process_instruction(
        &pid,
        &mut accounts,
        EchoInstruction::InitializeAuthorizedEcho {
            buffer_seed: 42,
            buffer_size: 9,
        },
    );
    assert!(matches!(r, Err(EchoError::InvalidInstructionInput)));
}

#[test]
fn initialize_rejects_wrong_buffer_address() {
    let pid = vec![3u8; 32];
    let authority = vec![5u8; 32];
    let mut accounts = vec![
        acct(vec![9u8; 32], true, false, Vec::new()),
        acct(authority, false, false, Vec::new()),
        acct(vec![6u8; 32], false, true, Vec::new()),
        acct(system_id(), false, false, Vec::new()),
    ];
    let r = Processor::process_instruction(
        &pid,
        &mut accounts,
        EchoInstruction::InitializeAuthorizedEcho {
            buffer_seed: 42,
            buffer_size: 41,
        },
    );
    assert!(matches!(r, Err(EchoError::InvalidAccountAddress)));
}

#[test]
fn initialize_rejects_unsigned_payer() {
    let pid = vec![3u8; 32];
    let mint_key = vec![4u8; 32];
    let seeds = build_vending_seeds(&mint_key, 100);
    let (address, _) = find_program_address(&seeds, &pid).unwrap();
    let mut accounts = vec![
        acct(address, true, false, Vec::new()),
        acct(mint_key, false, false, mint_bytes()),
        acct(vec![6u8; 32], false, false, Vec::new()),
        acct(system_id(), false, false, Vec::new()),
    ];
    let r = Processor::process_instruction(
        &pid,
        &mut accounts,
        EchoInstruction::InitializeVendingMachineEcho {
            price: 100,
            buffer_size: 20,
        },
    );
    assert!(matches!(r, Err(EchoError::MissingRequiredSignature)));
}
