use blobmanager::{
    AuthorizationPolicy, BlobLedger, BoundedBuffer, Call, Config, Error, Event, GenesisConfig,
    Origin, Pallet, RoleStore,
};

const MAX_BLOBS_PER_BLOCK: u32 = 4;
const MAX_BLOB_SIZE: u32 = 1024;

fn test_config() -> Config {
    Config {
        max_blobs_per_block: MAX_BLOBS_PER_BLOCK,
        max_blob_size: MAX_BLOB_SIZE,
        policy: AuthorizationPolicy::RootOnly,
    }
}

// A pallet at genesis with account 2 as the uploader and no admin.
pub fn new_test_ext() -> Pallet<u64> {
    Pallet::new(test_config(), GenesisConfig { admin: None, uploader: Some(2) })
}

// A pallet at genesis under the policy that admits the admin.
fn with_admin(admin: Option<u64>, uploader: Option<u64>) -> Pallet<u64> {
    let config = Config { policy: AuthorizationPolicy::AdminOrRoot, ..test_config() };
    Pallet::new(config, GenesisConfig { admin, uploader })
}

// Runs a call that must be refused with `expected` and must change nothing.
fn assert_noop<F>(pallet: &mut Pallet<u64>, call: F, expected: Error)
where
    F: FnOnce(&mut Pallet<u64>) -> Result<(), Error>,
{
    let before = pallet.clone();
    assert_eq!(call(pallet), Err(expected));
    assert_eq!(*pallet, before);
}

#[test]
fn genesis_config_uploader() {
    let pallet = new_test_ext();
    assert_eq!(pallet.uploader(), Some(&2));
}

#[test]
fn set_uploader_works() {
    let mut pallet = new_test_ext();
    assert_eq!(pallet.set_uploader(Origin::Root, 3), Ok(()));
    assert_eq!(pallet.uploader(), Some(&3));
}

#[test]
fn set_uploader_wrong_origin() {
    let mut pallet = new_test_ext();
    assert_noop(&mut pallet, |p| p.set_uploader(Origin::Signed(1), 2), Error::BadOrigin);
}

#[test]
fn upload_blob_works() {
    let mut pallet = new_test_ext();
    // Prepare blob
    let max_blob_size: u32 = pallet.config().max_blob_size;
    let blob = vec![42u8; max_blob_size as usize];
    // Store blob
    assert_eq!(pallet.upload_blob(Origin::Signed(2), blob.clone(), 1), Ok(()));
    // Make sure event was deposited
    assert_eq!(pallet.events().last(), Some(&Event::BlobStored));
    // Verify storage
    assert_eq!(
        pallet.blobs().log(1).expect("No blobs stored").first(),
        Some(&BoundedBuffer::try_from_vec(blob, max_blob_size).unwrap())
    );
}

#[test]
fn upload_blob_wrong_origin() {
    let mut pallet = new_test_ext();
    let blob = vec![0u8, 32];
    assert_noop(
        &mut pallet,
        |p| p.upload_blob(Origin::Signed(1), blob, 0),
        Error::CallableByUploaderOnly,
    );
}

#[test]
fn upload_blob_uploader_not_set() {
    // Set Uploader to None
    let (mut roles, blobs) = new_test_ext().into_parts();
    roles.uploader = None;
    let mut pallet = Pallet::from_parts(AuthorizationPolicy::RootOnly, roles, blobs);
    // Try storing a blob
    let blob = vec![0u8; 32];
    assert_noop(&mut pallet, |p| p.upload_blob(Origin::Signed(1), blob, 0), Error::UploaderNotSet);
}

#[test]
fn upload_blob_exceeds_blobs_per_block() {
    let mut pallet = new_test_ext();
    // Prepare 1k blob
    let max_blob_size: u32 = pallet.config().max_blob_size;
    let blob = vec![0u8; max_blob_size as usize];
    // Store maximum number of blobs per block
    let maxblobs: u32 = pallet.config().max_blobs_per_block;
    for _ in 0..maxblobs {
        assert_eq!(pallet.upload_blob(Origin::Signed(2), blob.clone(), 1), Ok(()));
        assert_eq!(pallet.events().last(), Some(&Event::BlobStored));
    }
    // Storing one more blob should fail
    assert_noop(
        &mut pallet,
        |p| p.upload_blob(Origin::Signed(2), blob.clone(), 1),
        Error::ExceededMaxBlobsPerBlock,
    );
}

#[test]
fn upload_blob_exceeds_max_blob_size() {
    let mut pallet = new_test_ext();
    let max_blob_size: u32 = pallet.config().max_blob_size;
    let blob = vec![0u8; (max_blob_size + 1) as usize];
    assert_noop(
        &mut pallet,
        |p| p.upload_blob(Origin::Signed(2), blob, 0),
        Error::ExceededMaxBlobSize,
    );
}

#[test]
fn genesis_starts_without_blobs_or_events() {
    let pallet = new_test_ext();
    assert_eq!(pallet.config(), test_config());
    assert_eq!(pallet.admin(), None);
    assert_eq!(pallet.roles(), &RoleStore { admin: None, uploader: Some(2) });
    assert!(pallet.events().is_empty());
    assert_eq!(pallet.blobs().count(0), 0);
    assert_eq!(pallet.blobs().count(1), 0);
    assert!(pallet.blobs().log(1).is_none());
}

#[test]
fn full_height_takes_four_blobs_and_refuses_the_fifth() {
    let mut pallet = new_test_ext();
    for i in 0..4u8 {
        let mut blob = vec![0u8; 1024];
        blob[0] = i;
        assert_eq!(pallet.upload_blob(Origin::Signed(2), blob, 1), Ok(()));
    }
    assert_eq!(pallet.events(), &vec![Event::BlobStored; 4]);
    assert_eq!(pallet.blobs().count(1), 4);
    // The blobs are kept in the order in which they came.
    for i in 0..4u8 {
        assert_eq!(pallet.blobs().blob(1, i as usize).unwrap().as_slice()[0], i);
    }
    assert_noop(
        &mut pallet,
        |p| p.upload_blob(Origin::Signed(2), vec![9u8; 10], 1),
        Error::ExceededMaxBlobsPerBlock,
    );
    assert_eq!(pallet.blobs().count(1), 4);
    assert_eq!(pallet.events().len(), 4);
}

#[test]
fn next_height_has_its_own_count() {
    let mut pallet = new_test_ext();
    for _ in 0..4 {
        assert_eq!(pallet.upload_blob(Origin::Signed(2), vec![0u8; 1024], 1), Ok(()));
    }
    assert_eq!(pallet.upload_blob(Origin::Signed(2), vec![0u8; 1024], 2), Ok(()));
    assert_eq!(pallet.blobs().count(1), 4);
    assert_eq!(pallet.blobs().count(2), 1);
    assert_eq!(pallet.events().len(), 5);
}

#[test]
fn oversized_blob_leaves_fresh_height_empty() {
    let mut pallet = new_test_ext();
    assert_noop(
        &mut pallet,
        |p| p.upload_blob(Origin::Signed(2), vec![0u8; 1025], 7),
        Error::ExceededMaxBlobSize,
    );
    assert_eq!(pallet.blobs().count(7), 0);
    assert!(pallet.events().is_empty());
}

#[test]
fn blob_of_exactly_the_maximum_size_is_accepted() {
    let mut pallet = new_test_ext();
    assert_eq!(pallet.upload_blob(Origin::Signed(2), vec![1u8; 1024], 3), Ok(()));
    assert_eq!(pallet.blobs().blob(3, 0).unwrap().len(), 1024);
}

#[test]
fn empty_blob_is_accepted() {
    let mut pallet = new_test_ext();
    assert_eq!(pallet.upload_blob(Origin::Signed(2), Vec::new(), 3), Ok(()));
    assert_eq!(pallet.blobs().count(3), 1);
    assert!(pallet.blobs().blob(3, 0).unwrap().is_empty());
}

#[test]
fn upload_from_another_account_is_refused() {
    let mut pallet = new_test_ext();
    assert_noop(
        &mut pallet,
        |p| p.upload_blob(Origin::Signed(3), vec![0u8; 8], 1),
        Error::CallableByUploaderOnly,
    );
}

#[test]
fn uploader_set_by_root_replaces_the_old_one() {
    let mut pallet = new_test_ext();
    assert_eq!(pallet.set_uploader(Origin::Root, 3), Ok(()));
    assert_noop(
        &mut pallet,
        |p| p.upload_blob(Origin::Signed(2), vec![0u8; 8], 1),
        Error::CallableByUploaderOnly,
    );
    assert_eq!(pallet.upload_blob(Origin::Signed(3), vec![5u8; 8], 1), Ok(()));
    assert_eq!(pallet.blobs().blob(1, 0).unwrap().as_slice(), &[5u8; 8][..]);
}

#[test]
fn set_uploader_touches_neither_ledger_nor_events() {
    let mut pallet = new_test_ext();
    assert_eq!(pallet.upload_blob(Origin::Signed(2), vec![1u8, 2, 3], 1), Ok(()));
    let before = pallet.clone();
    assert_eq!(pallet.set_uploader(Origin::Root, 9), Ok(()));
    assert_eq!(pallet.blobs(), before.blobs());
    assert_eq!(pallet.events(), before.events());
    assert_eq!(pallet.admin(), before.admin());
    assert_eq!(pallet.uploader(), Some(&9));
}

#[test]
fn checks_come_in_order() {
    // A full height and an oversized blob: the size is reported.
    let mut pallet = new_test_ext();
    for _ in 0..4 {
        assert_eq!(pallet.upload_blob(Origin::Signed(2), Vec::new(), 1), Ok(()));
    }
    assert_noop(
        &mut pallet,
        |p| p.upload_blob(Origin::Signed(2), vec![0u8; 2000], 1),
        Error::ExceededMaxBlobSize,
    );
    // A stranger with an oversized blob at a full height: the stranger is reported.
    assert_noop(
        &mut pallet,
        |p| p.upload_blob(Origin::Signed(5), vec![0u8; 2000], 1),
        Error::CallableByUploaderOnly,
    );
    // No uploader at all comes before everything but the origin.
    let mut empty: Pallet<u64> = Pallet::new(test_config(), GenesisConfig::default());
    assert_noop(
        &mut empty,
        |p| p.upload_blob(Origin::Signed(5), vec![0u8; 2000], 1),
        Error::UploaderNotSet,
    );
    assert_noop(&mut empty, |p| p.upload_blob(Origin::Root, vec![0u8; 2000], 1), Error::BadOrigin);
}

#[test]
fn upload_needs_a_signed_origin() {
    let mut pallet = new_test_ext();
    assert_noop(&mut pallet, |p| p.upload_blob(Origin::Root, vec![0u8; 8], 1), Error::BadOrigin);
    assert_noop(&mut pallet, |p| p.upload_blob(Origin::Unsigned, vec![0u8; 8], 1), Error::BadOrigin);
}

#[test]
fn set_uploader_needs_an_origin_with_authority() {
    let mut pallet = new_test_ext();
    assert_noop(&mut pallet, |p| p.set_uploader(Origin::Unsigned, 3), Error::BadOrigin);
    let mut pallet = with_admin(Some(1), None);
    assert_noop(&mut pallet, |p| p.set_uploader(Origin::Unsigned, 3), Error::BadOrigin);
}

#[test]
fn set_uploader_without_admin_is_refused() {
    let mut pallet = with_admin(None, Some(2));
    assert_noop(&mut pallet, |p| p.set_uploader(Origin::Signed(1), 3), Error::AdminNotSet);
}

#[test]
fn set_uploader_by_another_account_is_refused() {
    let mut pallet = with_admin(Some(1), Some(2));
    assert_noop(&mut pallet, |p| p.set_uploader(Origin::Signed(2), 3), Error::CallableByAdminOnly);
}

#[test]
fn set_uploader_by_admin_works() {
    let mut pallet = with_admin(Some(1), None);
    assert_eq!(pallet.admin(), Some(&1));
    assert_eq!(pallet.uploader(), None);
    assert_eq!(pallet.set_uploader(Origin::Signed(1), 3), Ok(()));
    assert_eq!(pallet.uploader(), Some(&3));
    assert_eq!(pallet.admin(), Some(&1));
    assert_eq!(pallet.upload_blob(Origin::Signed(3), vec![0u8; 4], 0), Ok(()));
}

#[test]
fn set_uploader_by_root_works_under_either_policy() {
    let mut pallet = with_admin(None, None);
    assert_eq!(pallet.set_uploader(Origin::Root, 3), Ok(()));
    assert_eq!(pallet.uploader(), Some(&3));
    let mut pallet = with_admin(Some(1), Some(2));
    assert_eq!(pallet.set_uploader(Origin::Root, 4), Ok(()));
    assert_eq!(pallet.uploader(), Some(&4));
}

#[test]
fn admin_counts_for_nothing_where_only_root_is_admitted() {
    let mut pallet: Pallet<u64> =
        Pallet::new(test_config(), GenesisConfig { admin: Some(1), uploader: None });
    assert_noop(&mut pallet, |p| p.set_uploader(Origin::Signed(1), 3), Error::BadOrigin);
}

#[test]
fn genesis_admin_and_uploader_act_at_once() {
    let mut pallet = with_admin(Some(1), Some(2));
    assert_eq!(pallet.upload_blob(Origin::Signed(2), vec![7u8; 16], 0), Ok(()));
    assert_eq!(pallet.set_uploader(Origin::Signed(1), 5), Ok(()));
    assert_eq!(pallet.upload_blob(Origin::Signed(5), vec![8u8; 16], 0), Ok(()));
    assert_eq!(pallet.blobs().count(0), 2);
}

#[test]
fn no_blob_fits_where_a_height_may_hold_none() {
    let config = Config { max_blobs_per_block: 0, ..test_config() };
    let mut pallet: Pallet<u64> =
        Pallet::new(config, GenesisConfig { admin: None, uploader: Some(2) });
    assert_noop(
        &mut pallet,
        |p| p.upload_blob(Origin::Signed(2), Vec::new(), 1),
        Error::ExceededMaxBlobsPerBlock,
    );
    assert_noop(
        &mut pallet,
        |p| p.upload_blob(Origin::Signed(2), Vec::new(), 2),
        Error::ExceededMaxBlobsPerBlock,
    );
}

#[test]
fn parts_round_trip() {
    let mut pallet = new_test_ext();
    assert_eq!(pallet.upload_blob(Origin::Signed(2), vec![1u8, 2], 4), Ok(()));
    let ledger: BlobLedger = pallet.blobs().clone();
    let (roles, blobs) = pallet.into_parts();
    assert_eq!(roles, RoleStore { admin: None, uploader: Some(2) });
    assert_eq!(blobs, ledger);
    let rebuilt = Pallet::from_parts(AuthorizationPolicy::RootOnly, roles, blobs);
    assert_eq!(rebuilt.config(), test_config());
    assert!(rebuilt.events().is_empty());
    assert_eq!(rebuilt.blobs().blob(4, 0).unwrap().as_slice(), &[1u8, 2][..]);
}

#[test]
fn identities_need_not_be_numbers() {
    let config = Config { policy: AuthorizationPolicy::AdminOrRoot, ..test_config() };
    let genesis = GenesisConfig { admin: Some(String::from("alice")), uploader: None };
    let mut pallet = Pallet::new(config, genesis);
    assert_eq!(
        pallet.set_uploader(Origin::Signed(String::from("bob")), String::from("bob")),
        Err(Error::CallableByAdminOnly)
    );
    assert_eq!(
        pallet.set_uploader(Origin::Signed(String::from("alice")), String::from("bob")),
        Ok(())
    );
    assert_eq!(pallet.upload_blob(Origin::Signed(String::from("bob")), vec![1], 1), Ok(()));
}

#[test]
fn uploader_set_by_root_is_stored() {
    let mut pallet = new_test_ext();
    let uploader: u64 = 77;
    assert_eq!(pallet.set_uploader(Origin::Root, uploader), Ok(()));
    assert_eq!(pallet.uploader(), Some(&uploader));
}

#[test]
fn blob_of_new_uploader_is_stored() {
    let mut pallet = new_test_ext();
    let uploader: u64 = 77;
    pallet.set_uploader(Origin::Root, uploader).expect("set_uploader() fail");
    let blob = vec![0u8; pallet.config().max_blob_size as usize];
    assert_eq!(pallet.upload_blob(Origin::Signed(uploader), blob.clone(), 0), Ok(()));
    assert_eq!(
        pallet.blobs().log(0).expect("No blobs stored").first(),
        Some(&BoundedBuffer::try_from_vec(blob, 1024).unwrap())
    );
}

#[test]
fn dispatch_routes_each_call() {
    let mut pallet = new_test_ext();
    let mut direct = new_test_ext();
    assert_eq!(
        pallet.dispatch(Origin::Signed(2), Call::UploadBlob { blob: vec![1, 2, 3] }, 5),
        Ok(())
    );
    assert_eq!(direct.upload_blob(Origin::Signed(2), vec![1, 2, 3], 5), Ok(()));
    assert_eq!(pallet, direct);
    assert_eq!(pallet.dispatch(Origin::Root, Call::SetUploader { uploader: 3 }, 5), Ok(()));
    assert_eq!(direct.set_uploader(Origin::Root, 3), Ok(()));
    assert_eq!(pallet, direct);
    assert_eq!(pallet.uploader(), Some(&3));
    assert_eq!(pallet.blobs().count(5), 1);
}

#[test]
fn dispatch_refusals_change_nothing() {
    let mut pallet = new_test_ext();
    assert_noop(
        &mut pallet,
        |p| p.dispatch(Origin::Signed(1), Call::SetUploader { uploader: 1 }, 0),
        Error::BadOrigin,
    );
    assert_noop(
        &mut pallet,
        |p| p.dispatch(Origin::Signed(1), Call::UploadBlob { blob: vec![0u8; 2] }, 0),
        Error::CallableByUploaderOnly,
    );
    assert_noop(
        &mut pallet,
        |p| p.dispatch(Origin::Signed(2), Call::UploadBlob { blob: vec![0u8; 1025] }, 0),
        Error::ExceededMaxBlobSize,
    );
}

#[test]
fn four_blobs_of_full_size_fill_a_height() {
    let mut pallet = new_test_ext();
    for sent in 1..=4usize {
        assert_eq!(pallet.upload_blob(Origin::Signed(2), vec![0u8; 1024], 1), Ok(()));
        assert_eq!(pallet.events().len(), sent);
        assert_eq!(pallet.blobs().count(1), sent);
    }
    assert_eq!(pallet.blobs().log(1).unwrap().len(), 4);
    assert!(pallet.blobs().log(1).unwrap().is_full());
    assert_noop(
        &mut pallet,
        |p| p.upload_blob(Origin::Signed(2), vec![0u8; 1024], 1),
        Error::ExceededMaxBlobsPerBlock,
    );
    assert_eq!(pallet.blobs().log(1).unwrap().len(), 4);
}

#[test]
fn upload_succeeds_exactly_up_to_the_maximum_size() {
    for length in [0usize, 1, 512, 1023, 1024, 1025, 1026, 2048, 4096] {
        let mut pallet = new_test_ext();
        let before = pallet.clone();
        let result = pallet.upload_blob(Origin::Signed(2), vec![3u8; length], 9);
        if length <= 1024 {
            assert_eq!(result, Ok(()));
            assert_eq!(pallet.blobs().count(9), 1);
            assert_eq!(pallet.blobs().blob(9, 0).unwrap().as_slice(), &vec![3u8; length][..]);
        } else {
            assert_eq!(result, Err(Error::ExceededMaxBlobSize));
            assert_eq!(pallet, before);
        }
    }
}
