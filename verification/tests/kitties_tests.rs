use kitties::Config;
use kitties::CurrencyError;
use kitties::Error;
use kitties::Event;
use kitties::Kitty;
use kitties::KittyId;
use kitties::Pallet;

/// A test runtime: the randomness source hands out one fixed 16-byte
/// value, the currency ledger records transfers and can be told to fail,
/// and the event sink collects every notification.
struct TestExt {
    events: Vec<Event>,
    transfers: Vec<(u64, u64, u64)>,
    seed: [u8; 16],
    fail_currency: bool,
}

impl TestExt {
    fn new() -> TestExt {
        let seed: [u8; 16] = [215, 75, 66, 60, 234, 156, 146, 62, 247, 65, 230, 205, 192, 2, 31, 70];
        TestExt { events: Vec::new(), transfers: Vec::new(), seed, fail_currency: false }
    }
}

impl Config for TestExt {
    fn random_bytes(&mut self, _requester: u64) -> [u8; 16] {
        self.seed
    }

    fn currency_transfer(&mut self, from: u64, to: u64, amount: u64) -> Result<(), CurrencyError> {
        if self.fail_currency {
            return Err(CurrencyError { code: 7 });
        }
        self.transfers.push((from, to, amount));
        Ok(())
    }

    fn kitty_price(&self) -> u64 {
        10
    }

    fn pallet_account(&self) -> u64 {
        999
    }

    fn deposit_event(&mut self, event: Event) {
        self.events.push(event);
    }
}

#[test]
fn create_kitty_works() {
    let mut ext = TestExt::new();
    let mut p = Pallet::new();
    let kitty_id: KittyId = 0;
    assert!(p.create(&mut ext, 1, *b"goodgood").is_ok());
    assert_eq!(
        p.kitties(kitty_id),
        Some(Kitty {
            dna: [215, 75, 66, 60, 234, 156, 146, 62, 247, 65, 230, 205, 192, 2, 31, 70],
            name: *b"goodgood"
        })
    );
}

#[test]
fn create_kitty_works_with_event_sent() {
    let mut ext = TestExt::new();
    let mut p = Pallet::new();
    let kitty_id: KittyId = 0;
    let who: u64 = 1;
    assert!(p.create(&mut ext, who, *b"goodgood").is_ok());
    let kitty = p.kitties(kitty_id).unwrap();
    let expected_event = Event::KittyCreated { who, kitty_id, kitty };
    assert!(ext.events.contains(&expected_event));
}

#[test]
fn create_kitty_failed_when_kitty_count_exceeds_max_value() {
    let mut ext = TestExt::new();
    let mut p = Pallet::new();
    p.set_next_kitty_id(KittyId::MAX);
    assert_eq!(p.create(&mut ext, 1, *b"goodgood"), Err(Error::CapacityExhausted));
}

#[test]
fn breed_kitty_works() {
    let mut ext = TestExt::new();
    let mut p = Pallet::new();
    let kitty_id_1: KittyId = 0;
    let kitty_id_2: KittyId = 1;
    let kitty_id_3: KittyId = 2;
    assert!(p.create(&mut ext, 1, *b"goodgood").is_ok());
    assert!(p.create(&mut ext, 1, *b"goodgood").is_ok());
    assert!(p.breed(&mut ext, 1, kitty_id_1, kitty_id_2, *b"goodgood").is_ok());
    assert_eq!(
        p.kitties(2),
        Some(Kitty {
            dna: [255, 255, 255, 255, 255, 255, 255, 255, 255, 255, 255, 255, 255, 255, 255, 255],
            name: *b"goodgood"
        })
    );
    assert_eq!(p.kitty_parents(kitty_id_3), (kitty_id_1, kitty_id_2));
}

#[test]
fn breed_kitty_works_with_event_sent() {
    let mut ext = TestExt::new();
    let mut p = Pallet::new();
    let kitty_id_1: KittyId = 0;
    let kitty_id_2: KittyId = 1;
    let kitty_id_3: KittyId = 2;
    let who: u64 = 1;
    assert!(p.create(&mut ext, who, *b"goodgood").is_ok());
    assert!(p.create(&mut ext, who, *b"goodgood").is_ok());
    assert!(p.breed(&mut ext, who, kitty_id_1, kitty_id_2, *b"goodgood").is_ok());
    let kitty = p.kitties(kitty_id_3).unwrap();
    let expected_event = Event::KittyBreed { who, kitty_id: kitty_id_3, kitty };
    assert!(ext.events.contains(&expected_event));
}

#[test]
fn breed_kitty_failed_when_kitty_count_exceeds_max_value() {
    let mut ext = TestExt::new();
    let mut p = Pallet::new();
    let kitty_id_1: KittyId = 0;
    let kitty_id_2: KittyId = 1;
    assert!(p.create(&mut ext, 1, *b"goodgood").is_ok());
    assert!(p.create(&mut ext, 1, *b"goodgood").is_ok());
    p.set_next_kitty_id(KittyId::MAX);
    assert_eq!(
        p.breed(&mut ext, 1, kitty_id_1, kitty_id_2, *b"goodgood"),
        Err(Error::CapacityExhausted)
    );
}

#[test]
fn transfer_kitty_works() {
    let mut ext = TestExt::new();
    let mut p = Pallet::new();
    let kitty_id: KittyId = 0;
    let from_account_id: u64 = 1;
    let to_account_id: u64 = 2;
    assert!(p.create(&mut ext, from_account_id, *b"goodgood").is_ok());
    assert!(p.transfer(&mut ext, from_account_id, to_account_id, kitty_id).is_ok());
    assert_eq!(p.owner(kitty_id), Some(2));
}

#[test]
fn transfer_kitty_works_with_event_sent() {
    let mut ext = TestExt::new();
    let mut p = Pallet::new();
    let kitty_id: KittyId = 0;
    let from_account_id: u64 = 1;
    let to_account_id: u64 = 2;
    assert!(p.create(&mut ext, from_account_id, *b"goodgood").is_ok());
    assert!(p.transfer(&mut ext, from_account_id, to_account_id, kitty_id).is_ok());
    let expected_event =
        Event::KittyTransferred { from: from_account_id, to: to_account_id, kitty_id };
    assert!(ext.events.contains(&expected_event));
}

#[test]
fn sale_kitty_works() {
    let mut ext = TestExt::new();
    let mut p = Pallet::new();
    let kitty_id: KittyId = 0;
    let who: u64 = 1;
    assert!(p.create(&mut ext, who, *b"goodgood").is_ok());
    assert!(p.sale(&mut ext, who, kitty_id).is_ok());
    let expected_event = Event::KittyOnSale { who, kitty_id };
    assert!(ext.events.contains(&expected_event));
}

#[test]
fn buy_kitty_works() {
    let mut ext = TestExt::new();
    let mut p = Pallet::new();
    let kitty_id: KittyId = 0;
    let who: u64 = 1;
    let to: u64 = 2;
    assert!(p.create(&mut ext, who, *b"goodgood").is_ok());
    assert!(p.sale(&mut ext, who, kitty_id).is_ok());
    assert!(p.buy(&mut ext, to, kitty_id).is_ok());
}

#[test]
fn allocator_counts_up_from_prior_value() {
    let mut p = Pallet::new();
    assert_eq!(p.next_kitty_id(), 0);
    assert_eq!(p.get_next_id(), Ok(0));
    assert_eq!(p.next_kitty_id(), 1);
    assert_eq!(p.get_next_id(), Ok(1));
    assert_eq!(p.next_kitty_id(), 2);
}

#[test]
fn allocator_exhausted_at_max_leaves_counter_unchanged() {
    let mut p = Pallet::new();
    p.set_next_kitty_id(KittyId::MAX);
    assert_eq!(p.get_next_id(), Err(Error::CapacityExhausted));
    assert_eq!(p.next_kitty_id(), KittyId::MAX);
}

#[test]
fn combine_dna_zero_inputs_give_all_ones() {
    let zero = [0u8; 16];
    let child = kitties::types::combine_dna(&zero, &zero, &zero);
    assert_eq!(child, [0xff_u8; 16]);
}

#[test]
fn combine_dna_is_asymmetric_in_its_parents() {
    let a = [0xff_u8; 16];
    let b = [0x0f_u8; 16];
    let sel = [0x33_u8; 16];
    // child byte = (a & sel) | (!b & !sel)
    let expected: u8 = (0xff_u8 & 0x33) | (!0x0f_u8 & !0x33_u8);
    let child = kitties::types::combine_dna(&a, &b, &sel);
    assert_eq!(child, [expected; 16]);
    let swapped = kitties::types::combine_dna(&b, &a, &sel);
    assert_ne!(child, swapped);
}

#[test]
fn transfer_by_non_owner_fails_and_keeps_owner() {
    let mut ext = TestExt::new();
    let mut p = Pallet::new();
    assert!(p.create(&mut ext, 1, *b"goodgood").is_ok());
    assert_eq!(p.transfer(&mut ext, 2, 3, 0), Err(Error::NotOwner));
    assert_eq!(p.owner(0), Some(1));
}

#[test]
fn transfer_of_unknown_kitty_fails() {
    let mut ext = TestExt::new();
    let mut p = Pallet::new();
    assert_eq!(p.transfer(&mut ext, 1, 2, 5), Err(Error::UnknownEntity));
}

#[test]
fn second_sale_of_same_kitty_fails() {
    let mut ext = TestExt::new();
    let mut p = Pallet::new();
    assert!(p.create(&mut ext, 1, *b"goodgood").is_ok());
    assert!(p.sale(&mut ext, 1, 0).is_ok());
    assert_eq!(p.sale(&mut ext, 1, 0), Err(Error::AlreadyListed));
}

#[test]
fn sale_by_non_owner_fails() {
    let mut ext = TestExt::new();
    let mut p = Pallet::new();
    assert!(p.create(&mut ext, 1, *b"goodgood").is_ok());
    assert_eq!(p.sale(&mut ext, 2, 0), Err(Error::NotOwner));
}

#[test]
fn buy_by_owner_fails_with_self_purchase() {
    let mut ext = TestExt::new();
    let mut p = Pallet::new();
    assert!(p.create(&mut ext, 1, *b"goodgood").is_ok());
    assert!(p.sale(&mut ext, 1, 0).is_ok());
    assert_eq!(p.buy(&mut ext, 1, 0), Err(Error::SelfPurchase));
}

#[test]
fn buy_of_unlisted_kitty_fails_with_not_listed() {
    let mut ext = TestExt::new();
    let mut p = Pallet::new();
    assert!(p.create(&mut ext, 1, *b"goodgood").is_ok());
    assert_eq!(p.buy(&mut ext, 3, 0), Err(Error::NotListed));
}

#[test]
fn buy_of_unknown_kitty_fails() {
    let mut ext = TestExt::new();
    let mut p = Pallet::new();
    assert_eq!(p.buy(&mut ext, 3, 9), Err(Error::UnknownEntity));
}

#[test]
fn create_propagates_currency_error_and_commits_nothing() {
    let mut ext = TestExt::new();
    ext.fail_currency = true;
    let mut p = Pallet::new();
    assert_eq!(
        p.create(&mut ext, 1, *b"goodgood"),
        Err(Error::Currency(CurrencyError { code: 7 }))
    );
    assert_eq!(p.next_kitty_id(), 0);
    assert_eq!(p.kitties(0), None);
    assert_eq!(p.owner(0), None);
}

#[test]
fn buy_propagates_currency_error_and_commits_nothing() {
    let mut ext = TestExt::new();
    let mut p = Pallet::new();
    assert!(p.create(&mut ext, 1, *b"goodgood").is_ok());
    assert!(p.sale(&mut ext, 1, 0).is_ok());
    ext.fail_currency = true;
    assert_eq!(p.buy(&mut ext, 2, 0), Err(Error::Currency(CurrencyError { code: 7 })));
    assert_eq!(p.owner(0), Some(1));
    assert_eq!(p.kitty_on_sale(0), Some(()));
}

#[test]
fn create_charges_the_fixed_fee_to_the_pallet_account() {
    let mut ext = TestExt::new();
    let mut p = Pallet::new();
    assert!(p.create(&mut ext, 4, *b"goodgood").is_ok());
    assert_eq!(ext.transfers, vec![(4, 999, 10)]);
}

#[test]
fn transfer_keeps_an_active_listing_for_the_new_owner() {
    let mut ext = TestExt::new();
    let mut p = Pallet::new();
    assert!(p.create(&mut ext, 1, *b"goodgood").is_ok());
    assert!(p.sale(&mut ext, 1, 0).is_ok());
    assert!(p.transfer(&mut ext, 1, 2, 0).is_ok());
    assert_eq!(p.owner(0), Some(2));
    assert_eq!(p.kitty_on_sale(0), Some(()));
}

#[test]
fn full_lifecycle_create_breed_transfer_sale_buy() {
    let mut ext = TestExt::new();
    let mut p = Pallet::new();
    assert!(p.create(&mut ext, 1, *b"goodgood").is_ok());
    assert!(p.create(&mut ext, 1, *b"goodgood").is_ok());
    let (child_id, _child) = p.breed(&mut ext, 1, 0, 1, *b"goodgood").unwrap();
    assert_eq!(child_id, 2);
    assert_eq!(p.kitty_parents(2), (0, 1));
    assert_eq!(p.owner(2), Some(1));
    assert!(p.transfer(&mut ext, 1, 2, child_id).is_ok());
    assert_eq!(p.owner(2), Some(2));
    assert_eq!(p.transfer(&mut ext, 1, 3, child_id), Err(Error::NotOwner));
    assert!(p.sale(&mut ext, 2, child_id).is_ok());
    ext.transfers.clear();
    assert!(p.buy(&mut ext, 3, child_id).is_ok());
    assert_eq!(ext.transfers, vec![(3, 2, 10)]);
    assert_eq!(p.owner(2), Some(3));
    assert_eq!(p.kitty_on_sale(2), None);
    let expected_event = Event::KittyBought { who: 3, kitty_id: child_id };
    assert!(ext.events.contains(&expected_event));
}

#[test]
fn breed_with_unknown_parent_fails() {
    let mut ext = TestExt::new();
    let mut p = Pallet::new();
    assert!(p.create(&mut ext, 1, *b"goodgood").is_ok());
    assert_eq!(p.breed(&mut ext, 1, 0, 7, *b"goodgood"), Err(Error::UnknownEntity));
    assert_eq!(p.breed(&mut ext, 1, 7, 0, *b"goodgood"), Err(Error::UnknownEntity));
    assert_eq!(p.next_kitty_id(), 1);
}

#[test]
fn created_kitty_has_default_parentage_and_is_unlisted() {
    let mut ext = TestExt::new();
    let mut p = Pallet::new();
    assert!(p.create(&mut ext, 1, *b"goodgood").is_ok());
    assert_eq!(p.kitty_parents(0), (0, 0));
    assert_eq!(p.kitty_on_sale(0), None);
}

#[test]
fn transfer_to_oneself_succeeds_and_changes_nothing() {
    let mut ext = TestExt::new();
    let mut p = Pallet::new();
    assert!(p.create(&mut ext, 1, *b"goodgood").is_ok());
    assert!(p.transfer(&mut ext, 1, 1, 0).is_ok());
    assert_eq!(p.owner(0), Some(1));
}
