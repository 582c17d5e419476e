use asset_loader::attributes::{AttributeItem, Attribute, FieldDecl, Literal};
use asset_loader::collection::{describe_collection, load_requests, CollectionInput, LoadRequest};
use asset_loader::loading::{
    AssetLoaderConfiguration, CheckOutcome, CollectionAction, LoadState, LoadingPhase,
    PhaseOutcome,
};

const LOADING: u64 = 1;
const MENU: u64 = 2;
const MENU_ASSETS: u64 = 100;

fn path_field(name: &str, path: &str) -> FieldDecl {
    FieldDecl {
        name: name.to_string(),
        attributes: vec![Attribute {
            name: "asset".to_string(),
            items: vec![AttributeItem::NameValue("path".to_string(), Literal::Str(path.to_string()))],
        }],
    }
}

#[test]
fn loading_then_menu() {
    let mut config = AssetLoaderConfiguration::new();
    config.register_state(LOADING, Some(MENU));
    assert_eq!(config.phase_of(LOADING), Some(LoadingPhase::StartLoading));

    let input = CollectionInput::NamedStruct(vec![
        path_field("background", "menu/background.png"),
        path_field("music", "menu/music.ogg"),
    ]);
    let fields = describe_collection(&input, false).unwrap();
    let requests = load_requests(&fields);
    assert_eq!(
        requests,
        vec![
            LoadRequest::File("menu/background.png".to_string()),
            LoadRequest::File("menu/music.ogg".to_string()),
        ]
    );

    assert_eq!(config.loading_state(LOADING), CollectionAction::StartLoading);
    config.start_loading_collections(LOADING, MENU_ASSETS, vec![7, 8]);
    assert_eq!(config.pending_count(LOADING), Some(1));
    assert!(matches!(config.phase(LOADING, LoadState::NotLoaded), PhaseOutcome::Idle));
    assert_eq!(config.phase_of(LOADING), Some(LoadingPhase::Loading));

    assert_eq!(config.loading_state(LOADING), CollectionAction::CheckLoading);
    assert_eq!(config.loading_handles(MENU_ASSETS), Some(&vec![7, 8]));
    assert_eq!(config.check_loading_state(LOADING, MENU_ASSETS, LoadState::Loading), CheckOutcome::Waiting);
    assert_eq!(config.pending_count(LOADING), Some(1));
    assert_eq!(
        config.check_loading_state(LOADING, MENU_ASSETS, LoadState::Loaded),
        CheckOutcome::Finished { next: Some(MENU) }
    );
    assert_eq!(config.pending_count(LOADING), Some(0));
    assert_eq!(config.loading_handles(MENU_ASSETS), None);
}

#[test]
fn check_without_handles_changes_nothing() {
    let mut config = AssetLoaderConfiguration::new();
    config.register_state(LOADING, Some(MENU));
    config.start_loading_collections(LOADING, MENU_ASSETS, vec![1]);
    assert_eq!(config.check_loading_state(LOADING, 555, LoadState::Loaded), CheckOutcome::Waiting);
    assert_eq!(config.pending_count(LOADING), Some(1));
    assert_eq!(config.loading_handles(MENU_ASSETS), Some(&vec![1]));
}

#[test]
fn two_collections_advance_once_both_are_loaded() {
    let mut config = AssetLoaderConfiguration::new();
    config.register_state(LOADING, Some(MENU));
    config.start_loading_collections(LOADING, 10, vec![1, 2]);
    config.start_loading_collections(LOADING, 11, vec![3]);
    assert_eq!(config.pending_count(LOADING), Some(2));
    assert_eq!(
        config.check_loading_state(LOADING, 11, LoadState::Loaded),
        CheckOutcome::Finished { next: None }
    );
    assert_eq!(config.pending_count(LOADING), Some(1));
    assert_eq!(config.check_loading_state(LOADING, 10, LoadState::Failed), CheckOutcome::Waiting);
    assert_eq!(
        config.check_loading_state(LOADING, 10, LoadState::Loaded),
        CheckOutcome::Finished { next: Some(MENU) }
    );
    assert_eq!(config.pending_count(LOADING), Some(0));
}

#[test]
fn no_successor_means_no_transition() {
    let mut config = AssetLoaderConfiguration::new();
    config.register_state(LOADING, None);
    config.start_loading_collections(LOADING, 10, vec![1]);
    assert_eq!(
        config.check_loading_state(LOADING, 10, LoadState::Loaded),
        CheckOutcome::Finished { next: None }
    );
    assert_eq!(config.pending_count(LOADING), Some(0));
}

#[test]
fn count_at_zero_is_not_decremented() {
    let mut config = AssetLoaderConfiguration::new();
    config.register_state(LOADING, Some(MENU));
    config.register_state(MENU, Some(LOADING));
    config.start_loading_collections(LOADING, 10, vec![1]);
    assert_eq!(
        config.check_loading_state(MENU, 10, LoadState::Loaded),
        CheckOutcome::Finished { next: None }
    );
    assert_eq!(config.pending_count(MENU), Some(0));
    assert_eq!(config.pending_count(LOADING), Some(1));
}

#[test]
fn registering_again_keeps_the_entry() {
    let mut config = AssetLoaderConfiguration::new();
    assert!(!config.is_registered(LOADING));
    config.register_state(LOADING, None);
    config.start_loading_collections(LOADING, 10, vec![1]);
    config.register_state(LOADING, Some(MENU));
    assert_eq!(config.pending_count(LOADING), Some(1));
    assert_eq!(config.next_state(LOADING), Some(MENU));
    config.register_state(LOADING, None);
    assert_eq!(config.next_state(LOADING), Some(MENU));
    assert!(config.is_registered(LOADING));
}

#[test]
fn asset_keys_are_prepared_first() {
    let mut config = AssetLoaderConfiguration::new();
    assert!(!config.add_key_collection(LOADING, 40));
    config.register_state(LOADING, Some(MENU));
    assert!(config.add_key_collection(LOADING, 40));
    assert!(config.add_key_collection(LOADING, 41));
    assert_eq!(config.phase_of(LOADING), Some(LoadingPhase::PreparingAssetKeys));
    assert_eq!(config.loading_state(LOADING), CollectionAction::Idle);
    assert_eq!(config.key_collection_handles(LOADING), Some(&vec![40, 41]));

    assert!(matches!(config.phase(LOADING, LoadState::Loading), PhaseOutcome::Idle));
    assert_eq!(config.phase_of(LOADING), Some(LoadingPhase::PreparingAssetKeys));
    match config.phase(LOADING, LoadState::Loaded) {
        PhaseOutcome::ApplyKeyCollections(h) => assert_eq!(h, vec![40, 41]),
        PhaseOutcome::Idle => panic!("expected the key collections"),
    }
    assert_eq!(config.phase_of(LOADING), Some(LoadingPhase::StartLoading));
    assert_eq!(config.key_collection_handles(LOADING), None);
    assert!(matches!(config.phase(LOADING, LoadState::Loaded), PhaseOutcome::Idle));
    assert_eq!(config.phase_of(LOADING), Some(LoadingPhase::Loading));
    assert!(matches!(config.phase(LOADING, LoadState::Loaded), PhaseOutcome::Idle));
    assert_eq!(config.phase_of(LOADING), Some(LoadingPhase::Loading));
}

#[test]
fn unknown_state_has_no_entry() {
    let config = AssetLoaderConfiguration::new();
    assert_eq!(config.phase_of(9), None);
    assert_eq!(config.pending_count(9), None);
    assert_eq!(config.next_state(9), None);
    assert_eq!(config.loading_handles(9), None);
}
