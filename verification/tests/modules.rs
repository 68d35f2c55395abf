use dao::configuration::builder::ConfigurationBuilder;
use dao::bid_escrow::storage::{BidStorage, IdSequence, JobStorage};
use dao::core_contracts::dao_nft::{DaoNft, KycNftContract, VaNftContract};
use dao::core_contracts::variable_repository::VariableRepositoryContract;
use dao::errors::Error;
use dao::modules::kyc_info::KycInfo;
use dao::modules::onboarding_info::OnboardingInfo;
use dao::modules::refs::ContractRefs;
use dao::modules::repository::{Repository, RepositoryDefaults};
use dao::types::Address;
use dao::u256::U256;

fn a(v: u64) -> Address {
    Address::new(v)
}

fn b(v: u64) -> U256 {
    U256::from_u64(v)
}

#[test]
fn a_value_written_now_is_read_back() {
    let mut repo = Repository::new();
    let e = repo.update_at("Key".to_string(), vec![1, 2], None, 100).unwrap();
    assert_eq!(e.key, "Key");
    assert_eq!(e.value, vec![1, 2]);
    assert_eq!(repo.get("Key".to_string(), 0), Some(vec![1, 2]));
    assert_eq!(repo.get("Key".to_string(), 1_000_000), Some(vec![1, 2]));
    assert_eq!(repo.get("Other".to_string(), 0), None);
    assert_eq!(repo.keys2, vec!["Key".to_string()]);
}

#[test]
fn a_scheduled_value_is_read_after_its_activation_time() {
    let mut repo = Repository::new();
    repo.update_at("Key".to_string(), vec![1], None, 10).unwrap();
    repo.update_at("Key".to_string(), vec![2], Some(50), 10).unwrap();
    assert_eq!(repo.get("Key".to_string(), 50), Some(vec![1]));
    assert_eq!(repo.get("Key".to_string(), 51), Some(vec![2]));
    let full = repo.get_full_value("Key".to_string()).unwrap();
    assert_eq!(full.current_value, vec![1]);
    assert_eq!(full.next_value, Some((vec![2], 50)));
    // a later update promotes the value whose time has passed
    repo.update_at("Key".to_string(), vec![3], Some(80), 60).unwrap();
    let full = repo.get_full_value("Key".to_string()).unwrap();
    assert_eq!(full.current_value, vec![2]);
    assert_eq!(full.next_value, Some((vec![3], 80)));
    // the key is listed once, however often it is updated
    assert_eq!(repo.keys2.len(), 1);
}

#[test]
fn scheduling_in_the_past_or_for_a_missing_key_fails() {
    let mut repo = Repository::new();
    assert_eq!(
        repo.update_at("Key".to_string(), vec![1], Some(5), 10).err(),
        Some(Error::ActivationTimeInPast)
    );
    assert_eq!(
        repo.update_at("Key".to_string(), vec![1], Some(15), 10).err(),
        Some(Error::KeyValueStorageError)
    );
    assert!(repo.keys2.is_empty());
}

#[test]
fn defaults_are_stored_in_the_framework_encoding() {
    let d = RepositoryDefaults::default();
    let items = d.items();
    assert_eq!(items.len(), 23);
    assert_eq!(items[0].0, "PostJobDOSFee");
    let mut fee = vec![0u8; 32];
    fee[0] = 0x10;
    fee[1] = 0x27;
    assert_eq!(items[0].1, fee);
    assert_eq!(items[1].0, "InternalAuctionTime");
    assert_eq!(items[1].1, 604800u64.to_le_bytes().to_vec());
    assert_eq!(items[5].0, "ForumKYCRequired");
    assert_eq!(items[5].1, vec![1]);
    assert_eq!(items[17].1, vec![0]);
}

#[test]
fn the_variable_repository_starts_with_the_defaults_and_the_addresses() {
    let mut repo = VariableRepositoryContract::new();
    let events = repo.init(a(1), a(0x0102), a(3), a(4));
    assert_eq!(events.len(), 26);
    assert_eq!(repo.keys_count(), 26);
    assert_eq!(
        repo.get("FiatConversionRateAddress".to_string(), 0),
        Some(vec![0, 0, 0, 0, 0, 0, 1, 2])
    );
    assert_eq!(
        repo.get("BidEscrowWalletAddress".to_string(), 0),
        Some(vec![0, 0, 0, 0, 0, 0, 0, 3])
    );
    assert_eq!(repo.get_key_at(25), Some("VotingIdsAddress".to_string()));
    assert_eq!(repo.get_key_at(26), None);
    let all = repo.all_variables(0).unwrap();
    assert_eq!(all.len(), 26);
    assert_eq!(
        repo.update_at(a(9), "PostJobDOSFee".to_string(), vec![], None, 0).err(),
        Some(Error::NotWhitelisted)
    );
    assert!(repo.update_at(a(1), "PostJobDOSFee".to_string(), vec![7], None, 0).is_ok());
    assert_eq!(repo.get("PostJobDOSFee".to_string(), 0), Some(vec![7]));
}

#[test]
fn an_address_gets_one_token() {
    let mut nft = DaoNft::new();
    nft.init(a(1), "VA".to_string(), "VAT".to_string(), "https://x/".to_string());
    assert_eq!(nft.mint(a(2), a(5)).err(), Some(Error::NotWhitelisted));
    let t = nft.mint(a(1), a(5)).unwrap();
    assert_eq!(t.token_id, b(0));
    assert_eq!(t.to, Some(a(5)));
    assert_eq!(nft.mint(a(1), a(5)).err(), Some(Error::UserAlreadyOwnsToken));
    let t = nft.mint(a(1), a(6)).unwrap();
    assert_eq!(t.token_id, b(1));
    assert_eq!(nft.total_supply(), b(2));
    assert_eq!(nft.balance_of(a(6)), b(1));
    assert_eq!(nft.owner_of(b(1)), Ok(a(6)));
    assert_eq!(nft.token_id(a(6)), Some(b(1)));
    assert_eq!(nft.token_uri(b(1)).unwrap(), "https://x/1");
    assert_eq!(nft.token_uri(b(7)).err(), Some(Error::TokenDoesNotExist));
    assert_eq!(nft.name(), "VA");
    assert_eq!(nft.symbol(), "VAT");
    assert_eq!(nft.base_uri(), "https://x/");
}

#[test]
fn burning_removes_the_token() {
    let mut nft = DaoNft::new();
    nft.init(a(1), "KYC".to_string(), "K".to_string(), "u/".to_string());
    nft.mint(a(1), a(5)).unwrap();
    let t = nft.burn(a(1), a(5)).unwrap().unwrap();
    assert_eq!(t.from, Some(a(5)));
    assert_eq!(nft.total_supply(), b(0));
    assert_eq!(nft.balance_of(a(5)), b(0));
    assert_eq!(nft.token_id(a(5)), None);
    assert_eq!(nft.owner_of(b(0)), Err(Error::InvalidTokenId));
    // the burned token still exists for its URI
    assert_eq!(nft.token_uri(b(0)).unwrap(), "u/0");
    assert!(nft.burn(a(1), a(5)).unwrap().is_none());
    assert_eq!(nft.burn(a(3), a(5)).err(), Some(Error::NotWhitelisted));
}

#[test]
fn contract_refs_must_be_set() {
    let mut refs = ContractRefs::new();
    assert_eq!(refs.variable_repository_address(), Err(Error::VariableValueNotSet));
    assert!(refs.reputation_token().is_err());
    refs.set_variable_repository(a(1));
    refs.set_reputation_token(a(2));
    refs.set_va_token(a(3));
    refs.set_kyc_token(a(4));
    assert_eq!(refs.variable_repository().unwrap().address, a(1));
    assert_eq!(refs.reputation_token().unwrap().address, a(2));
    assert_eq!(refs.va_token().unwrap().address, a(3));
    assert_eq!(refs.kyc_token().unwrap().address, a(4));
    assert_eq!(refs.kyc_token_address(), Ok(a(4)));
}

#[test]
fn onboarding_and_kyc_read_the_token_balances() {
    let info = OnboardingInfo { refs: ContractRefs::new() };
    assert!(info.is_onboarded(b(1)));
    assert!(!info.is_onboarded(b(0)));
    assert_eq!(info.token_id_of(None), Err(Error::InvalidTokenOwner));
    assert_eq!(info.token_id_of(Some(b(4))), Ok(b(4)));
    let mut kyc = KycInfo::new(ContractRefs::new());
    assert!(kyc.is_kycd(b(1)));
    assert!(!kyc.exists_ongoing_voting(a(1)));
    kyc.set_voting(a(1), 9);
    assert!(kyc.exists_ongoing_voting(a(1)));
    assert_eq!(kyc.get_voting_subject(9), Ok(a(1)));
    assert_eq!(kyc.get_voting_subject(8), Err(Error::VotingAddressNotFound));
    kyc.clear_voting(a(1));
    assert!(kyc.exists_ongoing_voting(a(1)));
}

#[test]
fn sequences_give_ids_in_order() {
    let mut s = IdSequence::new();
    assert_eq!(s.get_current_value(), 0);
    assert_eq!(s.next_value(), 0);
    assert_eq!(s.next_value(), 1);
    assert_eq!(s.get_current_value(), 1);
}

#[test]
fn bid_storage_keeps_bids_and_active_offers() {
    let mut st = BidStorage::new();
    assert_eq!(st.next_job_offer_id(), 0);
    assert_eq!(st.next_bid_id(), 0);
    assert_eq!(st.next_bid_id(), 1);
    assert_eq!(st.bids_count(), 1);
    st.store_bid_id(0, 0);
    st.store_bid_id(5, 1);
    st.store_bid_id(0, 2);
    assert_eq!(st.get_bids_count(0), 2);
    assert_eq!(st.get_nth_bid_id(0, 1), Ok(2));
    assert_eq!(st.get_nth_bid_id(0, 2), Err(Error::BidNotFound));
    st.add_to_active_offers(0);
    st.add_to_active_offers(5);
    st.remove_from_active_offers(0);
    assert_eq!(st.get_active_offers(), vec![5]);
    st.add_to_active_bids(a(1), 0, 3);
    assert_eq!(st.get_active_bid_id(a(1), 0), Some(3));
    st.remove_from_active_bids(a(1), 0);
    assert_eq!(st.get_active_bid_id(a(1), 0), None);
}

#[test]
fn job_storage_finds_the_job_of_a_voting() {
    let mut st = JobStorage::new();
    assert_eq!(st.next_job_id(), 0);
    st.store_job_for_voting(3, 0);
    assert_eq!(st.get_job_id_by_voting_id(3), Ok(0));
    assert_eq!(st.get_job_id_by_voting_id(4), Err(Error::VotingIdNotFound));
    st.add_to_active_jobs(0);
    st.add_to_active_jobs(1);
    st.remove_from_active_jobs(1);
    assert_eq!(st.get_active_jobs(), vec![0]);
    assert_eq!(st.jobs_count(), 0);
}

#[test]
fn kyc_and_va_tokens_are_dao_nfts() {
    let mut kyc = KycNftContract::init(a(1), "KYC".to_string(), "K".to_string(), "k/".to_string());
    kyc.token.mint(a(1), a(3)).unwrap();
    assert_eq!(kyc.token.mint(a(1), a(3)).err(), Some(Error::UserAlreadyOwnsToken));
    let va = VaNftContract::init(a(1), "VA".to_string(), "V".to_string(), "v/".to_string());
    assert_eq!(va.token.total_supply(), b(0));
    assert_eq!(va.token.access_control.get_owner(), Some(a(1)));
}

#[test]
fn a_configuration_is_read_from_the_stored_variables() {
    let mut repo = VariableRepositoryContract::new();
    repo.init(a(1), a(0x0102), a(3), a(4));
    let all = repo.all_variables(0).unwrap();
    // the timeout of a finished voting has no default
    assert_eq!(
        ConfigurationBuilder::new(b(10), &all).err(),
        Some(Error::VariableValueNotSet)
    );
    repo.update_at(a(1), "CancelFinishedVotingTimeout".to_string(), vec![5, 0, 0, 0, 0, 0, 0, 0], None, 0)
        .unwrap();
    let all = repo.all_variables(0).unwrap();
    let c = ConfigurationBuilder::new(b(10), &all).unwrap().build();
    let d = c.dao_configuration;
    assert_eq!(d.internal_auction_time, 604800);
    assert_eq!(d.public_auction_time, 864000);
    assert_eq!(d.post_job_dos_fee, b(10000));
    assert_eq!(d.voting_clearness_delta, b(8000));
    assert!(d.forum_kyc_required);
    assert!(!d.distribute_payment_to_non_voters);
    assert_eq!(d.fiat_conversion_rate_address, a(0x0102));
    assert_eq!(d.voting_ids_address, a(4));
    assert_eq!(d.cancel_finished_voting_timeout, 5);
    assert_eq!(c.total_onboarded, b(10));
    assert!(c.voting_configuration.only_va_can_create);
    // a flag must be one byte, 0 or 1
    repo.update_at(a(1), "ForumKYCRequired".to_string(), vec![2], None, 0).unwrap();
    let all = repo.all_variables(0).unwrap();
    assert_eq!(
        ConfigurationBuilder::new(b(10), &all).err(),
        Some(Error::VariableValueNotSet)
    );
}

#[test]
fn an_address_whose_token_was_burned_can_get_a_new_one() {
    let mut nft = DaoNft::new();
    nft.init(a(1), "KYC".to_string(), "K".to_string(), "u/".to_string());
    nft.mint(a(1), a(5)).unwrap();
    nft.burn(a(1), a(5)).unwrap();
    let t = nft.mint(a(1), a(5)).unwrap();
    assert_eq!(t.token_id, b(1));
    assert_eq!(nft.token_id(a(5)), Some(b(1)));
    assert_eq!(nft.total_supply(), b(1));
    assert_eq!(nft.balance_of(a(5)), b(1));
    assert_eq!(nft.mint(a(1), a(5)).err(), Some(Error::UserAlreadyOwnsToken));
}

#[test]
fn the_reputation_token_reference_survives_later_settings() {
    let mut refs = ContractRefs::new();
    refs.set_reputation_token(a(2));
    refs.set_kyc_token(a(4));
    refs.set_va_token(a(3));
    refs.set_variable_repository(a(1));
    refs.set_kyc_token(a(7));
    assert_eq!(refs.reputation_token_address(), Ok(a(2)));
    assert_eq!(refs.kyc_token_address(), Ok(a(7)));
}
