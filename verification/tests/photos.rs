use cidre::ns;
use cidre::ph::{
    image_request_outcome, photos_error_domain, Asset, AssetResource, AssetResourceManager,
    AssetResourceRequestOptions, ContentEditingEntry, ContentEditingInput,
    ContentEditingInputRequestOptions, FetchOptions, ImageEntry, ImageManager,
    ImageRequestOptions, ResourceData,
    PH_ASSET_RESOURCE_TYPE_ADJUSTMENT_BASE_PAIRED_VIDEO,
    PH_ASSET_RESOURCE_TYPE_ADJUSTMENT_BASE_PHOTO, PH_ASSET_RESOURCE_TYPE_ADJUSTMENT_BASE_VIDEO,
    PH_ASSET_RESOURCE_TYPE_ADJUSTMENT_DATA, PH_ASSET_RESOURCE_TYPE_ALTERNATE_PHOTO,
    PH_ASSET_RESOURCE_TYPE_AUDIO, PH_ASSET_RESOURCE_TYPE_FULL_SIZE_PAIRED_VIDEO,
    PH_ASSET_RESOURCE_TYPE_FULL_SIZE_PHOTO, PH_ASSET_RESOURCE_TYPE_FULL_SIZE_VIDEO,
    PH_ASSET_RESOURCE_TYPE_PAIRED_VIDEO, PH_ASSET_RESOURCE_TYPE_PHOTO,
    PH_ASSET_RESOURCE_TYPE_VIDEO, PH_IMAGE_REQUEST_OPTIONS_DELIVERY_MODE_FAST_FORMAT,
    PH_IMAGE_REQUEST_OPTIONS_DELIVERY_MODE_HIGH_QUALITY_FORMAT,
    PH_IMAGE_REQUEST_OPTIONS_DELIVERY_MODE_OPPORTUNISTIC,
};

fn asset(local_id: &str, hidden: bool, burst_member: bool) -> Asset {
    Asset { local_id: local_id.to_owned(), hidden, burst_member }
}

fn ids(names: &[&str]) -> Vec<String> {
    names.iter().map(|n| (*n).to_owned()).collect()
}

#[test]
fn delivery_mode_constants_match_platform_values() {
    assert_eq!(PH_IMAGE_REQUEST_OPTIONS_DELIVERY_MODE_OPPORTUNISTIC, 0);
    assert_eq!(PH_IMAGE_REQUEST_OPTIONS_DELIVERY_MODE_HIGH_QUALITY_FORMAT, 1);
    assert_eq!(PH_IMAGE_REQUEST_OPTIONS_DELIVERY_MODE_FAST_FORMAT, 2);
}

#[test]
fn resource_type_constants_match_platform_values() {
    assert_eq!(PH_ASSET_RESOURCE_TYPE_PHOTO, 1);
    assert_eq!(PH_ASSET_RESOURCE_TYPE_VIDEO, 2);
    assert_eq!(PH_ASSET_RESOURCE_TYPE_AUDIO, 3);
    assert_eq!(PH_ASSET_RESOURCE_TYPE_ALTERNATE_PHOTO, 4);
    assert_eq!(PH_ASSET_RESOURCE_TYPE_FULL_SIZE_PHOTO, 5);
    assert_eq!(PH_ASSET_RESOURCE_TYPE_FULL_SIZE_VIDEO, 6);
    assert_eq!(PH_ASSET_RESOURCE_TYPE_ADJUSTMENT_DATA, 7);
    assert_eq!(PH_ASSET_RESOURCE_TYPE_ADJUSTMENT_BASE_PHOTO, 8);
    assert_eq!(PH_ASSET_RESOURCE_TYPE_PAIRED_VIDEO, 9);
    assert_eq!(PH_ASSET_RESOURCE_TYPE_FULL_SIZE_PAIRED_VIDEO, 10);
    assert_eq!(PH_ASSET_RESOURCE_TYPE_ADJUSTMENT_BASE_PAIRED_VIDEO, 11);
    assert_eq!(PH_ASSET_RESOURCE_TYPE_ADJUSTMENT_BASE_VIDEO, 12);
}

#[test]
fn fetch_with_known_identifier_reports_the_asset() {
    let library = vec![asset("a", false, false), asset("b", false, false)];
    let r = Asset::fetch_with_local_identifiers(&library, &ids(&["b"]), None);
    assert_eq!(r.count(), 1);
    assert_eq!(r.object_at(0).unwrap().local_identifier(), "b");
}

#[test]
fn fetch_with_unknown_identifier_reports_nothing() {
    let library = vec![asset("a", false, false), asset("b", false, false)];
    let r = Asset::fetch_with_local_identifiers(&library, &ids(&["missing"]), None);
    assert_eq!(r.count(), 0);
    assert!(r.object_at(0).is_none());
}

#[test]
fn fetch_keeps_library_order() {
    let library = vec![asset("c", false, false), asset("a", false, false), asset("b", false, false)];
    let r = Asset::fetch_with_local_identifiers(&library, &ids(&["a", "b", "c"]), None);
    assert_eq!(r.count(), 3);
    assert_eq!(r.object_at(0).unwrap().local_identifier(), "c");
    assert_eq!(r.object_at(1).unwrap().local_identifier(), "a");
    assert_eq!(r.object_at(2).unwrap().local_identifier(), "b");
}

#[test]
fn fetch_leaves_hidden_assets_out_without_the_option() {
    let library = vec![asset("a", true, false), asset("b", false, false)];
    let r = Asset::fetch_assets_with_options(&library, None);
    assert_eq!(r.count(), 1);
    assert_eq!(r.object_at(0).unwrap().local_identifier(), "b");
}

#[test]
fn fetch_reports_hidden_assets_with_the_option() {
    let library = vec![asset("a", true, false), asset("b", false, false)];
    let mut options = FetchOptions::new();
    options.set_include_hidden_assets(true);
    let r = Asset::fetch_assets_with_options(&library, Some(&options));
    assert_eq!(r.count(), 2);
}

#[test]
fn fetch_leaves_burst_members_out_without_the_option() {
    let library = vec![asset("a", false, true), asset("b", false, false)];
    let r = Asset::fetch_assets_with_options(&library, None);
    assert_eq!(r.count(), 1);
    assert_eq!(r.object_at(0).unwrap().local_identifier(), "b");
}

#[test]
fn fetch_reports_burst_members_with_the_option() {
    let library = vec![asset("a", false, true), asset("b", false, false)];
    let mut options = FetchOptions::new();
    options.set_include_all_burst_assets(true);
    let r = Asset::fetch_assets_with_options(&library, Some(&options));
    assert_eq!(r.count(), 2);
}

#[test]
fn fetch_options_start_values_and_setters() {
    let mut options = FetchOptions::new();
    assert!(!options.include_all_burst_assets);
    assert!(!options.include_hidden_assets);
    options.set_include_all_burst_assets(true);
    assert!(options.include_all_burst_assets);
    assert!(!options.include_hidden_assets);
    options.set_include_hidden_assets(true);
    assert!(options.include_hidden_assets);
}

#[test]
fn object_at_past_the_end_reports_nothing() {
    let library = vec![asset("a", false, false)];
    let r = Asset::fetch_assets_with_options(&library, None);
    assert_eq!(r.count(), 1);
    assert!(r.object_at(1).is_none());
    assert!(r.object_at(100).is_none());
}

#[test]
fn image_request_options_start_values_and_setters() {
    let mut options = ImageRequestOptions::new();
    assert_eq!(options.delivery_mode, PH_IMAGE_REQUEST_OPTIONS_DELIVERY_MODE_OPPORTUNISTIC);
    assert!(!options.synchronous);
    assert!(!options.network_access_allowed);
    options.set_delivery_mode(PH_IMAGE_REQUEST_OPTIONS_DELIVERY_MODE_HIGH_QUALITY_FORMAT);
    assert_eq!(options.delivery_mode, PH_IMAGE_REQUEST_OPTIONS_DELIVERY_MODE_HIGH_QUALITY_FORMAT);
    options.set_synchronous(true);
    assert!(options.synchronous);
    options.set_network_access_allowed(true);
    assert!(options.network_access_allowed);
    assert_eq!(options.delivery_mode, PH_IMAGE_REQUEST_OPTIONS_DELIVERY_MODE_HIGH_QUALITY_FORMAT);
}

#[test]
fn image_request_for_missing_asset_reports_a_domain_tagged_error() {
    let manager = ImageManager::default();
    let a = asset("missing", false, false);
    let r = manager.request_image_data_and_orientation_for_asset(&a, None);
    let e = r.err().unwrap();
    assert_eq!(e.domain(), "PHPhotosErrorDomain");
    assert_eq!(e.code(), -1);
}

#[test]
fn image_request_for_served_asset_reports_its_data() {
    let manager = ImageManager {
        entries: vec![ImageEntry {
            asset_local_id: "a".to_owned(),
            data: vec![1, 2, 3],
            data_uti: Some("public.jpeg".to_owned()),
            orientation: 6,
        }],
    };
    let a = asset("a", false, false);
    let (data, uti, orientation) =
        manager.request_image_data_and_orientation_for_asset(&a, None).unwrap();
    assert_eq!(data, vec![1, 2, 3]);
    assert_eq!(uti.unwrap(), "public.jpeg");
    assert_eq!(orientation, 6);
}

#[test]
fn image_request_outcome_reports_data_or_domain_tagged_error() {
    let ok = image_request_outcome(Some(vec![9]), None, 1).unwrap();
    assert_eq!(ok.0, vec![9]);
    assert!(ok.1.is_none());
    assert_eq!(ok.2, 1);
    let err = image_request_outcome(None, Some("public.jpeg".to_owned()), 1).err().unwrap();
    assert_eq!(err.domain(), photos_error_domain());
    assert_eq!(err.code(), -1);
}

#[test]
fn content_editing_options_start_values_and_setters() {
    let mut options = ContentEditingInputRequestOptions::new();
    assert!(!options.network_access_allowed);
    assert!(!options.can_handle_adjustment_data);
    options.set_network_access_allowed(true);
    assert!(options.network_access_allowed);
    options.set_can_handle_adjustment_data(true);
    assert!(options.can_handle_adjustment_data);
    assert!(options.network_access_allowed);
}

#[test]
fn content_editing_input_reports_url_and_uti() {
    let input = ContentEditingInput {
        full_size_image_url: Some("file:///photo.jpg".to_owned()),
        full_size_image_uti: Some("public.jpeg".to_owned()),
    };
    assert_eq!(input.full_size_image_url().unwrap(), "file:///photo.jpg");
    assert_eq!(input.full_size_image_uti().unwrap(), "public.jpeg");
    let empty = ContentEditingInput { full_size_image_url: None, full_size_image_uti: None };
    assert!(empty.full_size_image_url().is_none());
    assert!(empty.full_size_image_uti().is_none());
}

#[test]
fn content_editing_request_reports_the_served_input() {
    let entries = vec![ContentEditingEntry {
        asset_local_id: "a".to_owned(),
        input: ContentEditingInput {
            full_size_image_url: Some("file:///photo.jpg".to_owned()),
            full_size_image_uti: Some("public.jpeg".to_owned()),
        },
    }];
    let a = asset("a", false, false);
    let input = a.request_content_editing_input_with_options(&entries, None).unwrap();
    assert_eq!(input.full_size_image_url().unwrap(), "file:///photo.jpg");
    assert_eq!(input.full_size_image_uti().unwrap(), "public.jpeg");
}

#[test]
fn content_editing_request_for_missing_asset_reports_a_domain_tagged_error() {
    let entries: Vec<ContentEditingEntry> = Vec::new();
    let a = asset("a", false, false);
    let e = a.request_content_editing_input_with_options(&entries, None).err().unwrap();
    assert_eq!(e.domain(), "PHPhotosErrorDomain");
    assert_eq!(e.code(), -1);
}

#[test]
fn resources_for_asset_reports_only_its_resources() {
    let catalogue = vec![
        AssetResource { asset_local_id: "a".to_owned(), resource_type: PH_ASSET_RESOURCE_TYPE_PHOTO },
        AssetResource { asset_local_id: "b".to_owned(), resource_type: PH_ASSET_RESOURCE_TYPE_VIDEO },
        AssetResource {
            asset_local_id: "a".to_owned(),
            resource_type: PH_ASSET_RESOURCE_TYPE_ADJUSTMENT_DATA,
        },
    ];
    let a = asset("a", false, false);
    let r = AssetResource::resources_for_asset(&catalogue, &a);
    assert_eq!(r.len(), 2);
    assert_eq!(r[0].resource_type(), PH_ASSET_RESOURCE_TYPE_PHOTO);
    assert_eq!(r[1].resource_type(), PH_ASSET_RESOURCE_TYPE_ADJUSTMENT_DATA);
}

#[test]
fn resource_data_request_reports_bytes_or_domain_tagged_error() {
    let manager = AssetResourceManager {
        entries: vec![ResourceData {
            asset_local_id: "a".to_owned(),
            resource_type: PH_ASSET_RESOURCE_TYPE_PHOTO,
            data: vec![7, 8],
        }],
    };
    let served = AssetResource {
        asset_local_id: "a".to_owned(),
        resource_type: PH_ASSET_RESOURCE_TYPE_PHOTO,
    };
    assert_eq!(manager.request_data_for_resource(&served, None).unwrap(), vec![7, 8]);
    let missing = AssetResource {
        asset_local_id: "a".to_owned(),
        resource_type: PH_ASSET_RESOURCE_TYPE_VIDEO,
    };
    let e = manager.request_data_for_resource(&missing, None).err().unwrap();
    assert_eq!(e.domain(), "PHPhotosErrorDomain");
    assert_eq!(e.code(), -1);
}

#[test]
fn default_resource_manager_serves_nothing() {
    let manager = AssetResourceManager::default();
    let resource = AssetResource {
        asset_local_id: "a".to_owned(),
        resource_type: PH_ASSET_RESOURCE_TYPE_PHOTO,
    };
    assert!(manager.request_data_for_resource(&resource, None).is_err());
}

#[test]
fn resource_request_options_start_value_and_setter() {
    let mut options = AssetResourceRequestOptions::new();
    assert!(!options.network_access_allowed);
    options.set_network_access_allowed(true);
    assert!(options.network_access_allowed);
}

#[test]
fn error_reports_its_domain_and_code() {
    let e = ns::Error::with_domain("NSCocoaErrorDomain", 260);
    assert_eq!(e.domain(), "NSCocoaErrorDomain");
    assert_eq!(e.code(), 260);
    let copy = e.clone();
    assert_eq!(copy.domain(), "NSCocoaErrorDomain");
    assert_eq!(copy.code(), 260);
}

#[test]
fn copy_helpers_copy_value_for_value() {
    let strings = vec!["a".to_owned(), "b".to_owned()];
    assert_eq!(ns::copy_string_array(&strings), strings);
    let data = vec![1u8, 2, 3];
    assert_eq!(ns::copy_data(&data), data);
    assert_eq!(ns::copy_opt_string(&Some("x".to_owned())), Some("x".to_owned()));
    assert_eq!(ns::copy_opt_string(&None), None);
}
