//! A model of the photo library.
//!
//! The library holds assets; fetch options say which assets a fetch reports;
//! request options say how image data is to be delivered; managers answer
//! data requests from what the library holds. The model carries each of these
//! as plain values and states exactly what every operation returns.

use vstd::prelude::*;

use crate::ns;

verus! {

/// Deliver one result, possibly of degraded quality, then better ones.
pub const PH_IMAGE_REQUEST_OPTIONS_DELIVERY_MODE_OPPORTUNISTIC: i32 = 0;

/// Deliver only a result of the highest quality available.
pub const PH_IMAGE_REQUEST_OPTIONS_DELIVERY_MODE_HIGH_QUALITY_FORMAT: i32 = 1;

/// Deliver the fastest result available, whatever its quality.
pub const PH_IMAGE_REQUEST_OPTIONS_DELIVERY_MODE_FAST_FORMAT: i32 = 2;

/// The resource is a photo.
pub const PH_ASSET_RESOURCE_TYPE_PHOTO: i32 = 1;

/// The resource is a video.
pub const PH_ASSET_RESOURCE_TYPE_VIDEO: i32 = 2;

/// The resource is an audio recording.
pub const PH_ASSET_RESOURCE_TYPE_AUDIO: i32 = 3;

/// The resource is an alternate rendition of a photo.
pub const PH_ASSET_RESOURCE_TYPE_ALTERNATE_PHOTO: i32 = 4;

/// The resource is a photo at full size.
pub const PH_ASSET_RESOURCE_TYPE_FULL_SIZE_PHOTO: i32 = 5;

/// The resource is a video at full size.
pub const PH_ASSET_RESOURCE_TYPE_FULL_SIZE_VIDEO: i32 = 6;

/// The resource holds adjustment data.
pub const PH_ASSET_RESOURCE_TYPE_ADJUSTMENT_DATA: i32 = 7;

/// The resource is the photo an adjustment was based on.
pub const PH_ASSET_RESOURCE_TYPE_ADJUSTMENT_BASE_PHOTO: i32 = 8;

/// The resource is the video paired with a photo.
pub const PH_ASSET_RESOURCE_TYPE_PAIRED_VIDEO: i32 = 9;

/// The resource is a paired video at full size.
pub const PH_ASSET_RESOURCE_TYPE_FULL_SIZE_PAIRED_VIDEO: i32 = 10;

/// The resource is the paired video an adjustment was based on.
pub const PH_ASSET_RESOURCE_TYPE_ADJUSTMENT_BASE_PAIRED_VIDEO: i32 = 11;

/// The resource is the video an adjustment was based on.
pub const PH_ASSET_RESOURCE_TYPE_ADJUSTMENT_BASE_VIDEO: i32 = 12;

/// The domain under which the photo library reports its errors.
pub open spec fn spec_photos_error_domain() -> Seq<char> {
    "PHPhotosErrorDomain"@
}

/// The domain under which the photo library reports its errors.
pub fn photos_error_domain() -> (r: &'static str)
    ensures
        r@ == spec_photos_error_domain(),
{
    "PHPhotosErrorDomain"
}

/// What an [`Asset`] value holds: its identifier and the flags that a fetch
/// reads.
pub ghost struct AssetView {
    pub local_id: Seq<char>,
    pub hidden: bool,
    pub burst_member: bool,
}

/// One asset of the library: a photo or video, as a fetch sees it.
pub struct Asset {
    /// The identifier under which the library keeps the asset on this device.
    pub local_id: String,
    /// Whether the user has marked the asset hidden.
    pub hidden: bool,
    /// Whether the asset belongs to a burst sequence without being the
    /// sequence's representative.
    pub burst_member: bool,
}

impl View for Asset {
    type V = AssetView;

    open spec fn view(&self) -> AssetView {
        AssetView {
            local_id: self.local_id@,
            hidden: self.hidden,
            burst_member: self.burst_member,
        }
    }
}

impl Clone for Asset {
    fn clone(&self) -> (r: Self)
        ensures
            r@ == self@,
    {
        Asset {
            local_id: self.local_id.clone(),
            hidden: self.hidden,
            burst_member: self.burst_member,
        }
    }
}

impl Asset {
    /// The identifier under which the library keeps the asset on this device.
    pub fn local_identifier(&self) -> (r: &String)
        ensures
            r@ == self@.local_id,
    {
        &self.local_id
    }
}

/// Options that say which assets a fetch reports.
#[derive(Clone, Copy, PartialEq, Eq, Structural)]
pub struct FetchOptions {
    /// Whether the fetch reports every asset of a burst sequence, rather than
    /// the sequence's representative alone.
    pub include_all_burst_assets: bool,
    /// Whether the fetch reports assets the user has marked hidden.
    pub include_hidden_assets: bool,
}

/// The options a fetch starts from: burst sequences stand for their
/// representative, hidden assets stay out.
pub open spec fn spec_default_fetch_options() -> FetchOptions {
    FetchOptions { include_all_burst_assets: false, include_hidden_assets: false }
}

impl FetchOptions {
    /// Creates fetch options with their starting values.
    pub fn new() -> (r: FetchOptions)
        ensures
            r == spec_default_fetch_options(),
    {
        FetchOptions { include_all_burst_assets: false, include_hidden_assets: false }
    }

    /// Sets whether the fetch reports every asset of a burst sequence.
    pub fn set_include_all_burst_assets(&mut self, included: bool)
        ensures
            final(self).include_all_burst_assets == included,
            final(self).include_hidden_assets == old(self).include_hidden_assets,
    {
        self.include_all_burst_assets = included;
    }

    /// Sets whether the fetch reports assets the user has marked hidden.
    pub fn set_include_hidden_assets(&mut self, included: bool)
        ensures
            final(self).include_hidden_assets == included,
            final(self).include_all_burst_assets == old(self).include_all_burst_assets,
    {
        self.include_hidden_assets = included;
    }
}

/// The assets of a library, as the specification sees them.
pub open spec fn spec_asset_views(assets: Seq<Asset>) -> Seq<AssetView> {
    assets.map_values(|a: Asset| a@)
}

/// Whether one of the identifiers is the given one.
pub open spec fn spec_ids_contain(ids: Seq<Seq<char>>, id: Seq<char>) -> bool {
    exists|i: int| 0 <= i < ids.len() && ids[i] == id
}

/// Whether the options admit the asset: a hidden asset only where hidden
/// assets are included, a burst member only where whole burst sequences are.
pub open spec fn spec_options_admit(opts: FetchOptions, a: AssetView) -> bool {
    &&& a.hidden ==> opts.include_hidden_assets
    &&& a.burst_member ==> opts.include_all_burst_assets
}

/// Whether a fetch reports the asset: its identifier must be among the
/// requested ones, where the fetch requests any, and the options must admit
/// it.
pub open spec fn spec_fetch_admits(
    a: AssetView,
    ids: Option<Seq<Seq<char>>>,
    opts: FetchOptions,
) -> bool {
    &&& match ids {
        Some(s) => spec_ids_contain(s, a.local_id),
        None => true,
    }
    &&& spec_options_admit(opts, a)
}

/// The assets that a fetch reports from position `i` of the library on, in
/// library order.
pub open spec fn spec_fetch_from(
    lib: Seq<AssetView>,
    ids: Option<Seq<Seq<char>>>,
    opts: FetchOptions,
    i: int,
) -> Seq<AssetView>
    decreases lib.len() - i,
{
    if i < 0 || i >= lib.len() {
        Seq::empty()
    } else if spec_fetch_admits(lib[i], ids, opts) {
        seq![lib[i]] + spec_fetch_from(lib, ids, opts, i + 1)
    } else {
        spec_fetch_from(lib, ids, opts, i + 1)
    }
}

/// The assets that a fetch reports, in library order.
pub open spec fn spec_fetch(
    lib: Seq<AssetView>,
    ids: Option<Seq<Seq<char>>>,
    opts: FetchOptions,
) -> Seq<AssetView> {
    spec_fetch_from(lib, ids, opts, 0)
}

/// The options a fetch works with: the given ones, or the starting values
/// where none are given.
pub open spec fn spec_options_of(options: Option<&FetchOptions>) -> FetchOptions {
    match options {
        Some(o) => *o,
        None => spec_default_fetch_options(),
    }
}

/// The identifiers a fetch restricts itself to, as the specification sees
/// them.
pub open spec fn spec_ids_of(identifiers: Option<&Vec<String>>) -> Option<Seq<Seq<char>>> {
    match identifiers {
        Some(v) => Some(v.deep_view()),
        None => None,
    }
}

/// Whether one of the identifiers equals the given one.
fn identifiers_contain(identifiers: &Vec<String>, id: &String) -> (r: bool)
    ensures
        r == spec_ids_contain(identifiers.deep_view(), id@),
{
    let mut i: usize = 0;
    while i < identifiers.len()
        invariant
            i <= identifiers@.len(),
            forall|j: int| 0 <= j < i ==> identifiers.deep_view()[j] != id@,
        decreases identifiers@.len() - i,
    {
        if identifiers[i] == *id {
            proof {
                assert(identifiers.deep_view()[i as int] == id@);
            }
            return true;
        }
        i += 1;
    }
    false
}

/// Whether a fetch with the given identifiers and options reports the asset.
fn fetch_admits(asset: &Asset, identifiers: Option<&Vec<String>>, options: &FetchOptions) -> (r:
    bool)
    ensures
        r == spec_fetch_admits(asset@, spec_ids_of(identifiers), *options),
{
    let id_ok = match identifiers {
        Some(ids) => identifiers_contain(ids, &asset.local_id),
        None => true,
    };
    let hidden_ok = !asset.hidden || options.include_hidden_assets;
    let burst_ok = !asset.burst_member || options.include_all_burst_assets;
    id_ok && hidden_ok && burst_ok
}

/// Fetches the admitted assets in library order.
fn fetch_filtered(
    library: &Vec<Asset>,
    identifiers: Option<&Vec<String>>,
    options: &FetchOptions,
) -> (r: Vec<Asset>)
    ensures
        spec_asset_views(r@) == spec_fetch(
            spec_asset_views(library@),
            spec_ids_of(identifiers),
            *options,
        ),
{
    let ghost lib = spec_asset_views(library@);
    let ghost ids = spec_ids_of(identifiers);
    let mut out: Vec<Asset> = Vec::new();
    proof {
        assert(spec_asset_views(out@) =~= Seq::empty());
        assert(Seq::<AssetView>::empty() + spec_fetch_from(lib, ids, *options, 0)
            =~= spec_fetch_from(lib, ids, *options, 0));
    }
    let mut i: usize = 0;
    while i < library.len()
        invariant
            i <= library@.len(),
            lib == spec_asset_views(library@),
            ids == spec_ids_of(identifiers),
            spec_asset_views(out@) + spec_fetch_from(lib, ids, *options, i as int) == spec_fetch(
                lib,
                ids,
                *options,
            ),
        decreases library@.len() - i,
    {
        let keep = fetch_admits(&library[i], identifiers, options);
        let ghost prev_views = spec_asset_views(out@);
        proof {
            assert(lib[i as int] == library@[i as int]@);
        }
        if keep {
            out.push(library[i].clone());
            proof {
                assert(spec_asset_views(out@) =~= prev_views.push(lib[i as int]));
                assert(prev_views + (seq![lib[i as int]] + spec_fetch_from(
                    lib,
                    ids,
                    *options,
                    i as int + 1,
                )) =~= prev_views.push(lib[i as int]) + spec_fetch_from(
                    lib,
                    ids,
                    *options,
                    i as int + 1,
                ));
            }
        }
        i += 1;
    }
    proof {
        assert(spec_fetch_from(lib, ids, *options, i as int) =~= Seq::empty());
        assert(spec_asset_views(out@) + Seq::<AssetView>::empty() =~= spec_asset_views(out@));
    }
    out
}

/// What a fetch yields: the reported assets, in library order.
pub struct FetchResult {
    assets: Vec<Asset>,
}

impl View for FetchResult {
    type V = Seq<AssetView>;

    closed spec fn view(&self) -> Seq<AssetView> {
        spec_asset_views(self.assets@)
    }
}

impl FetchResult {
    /// How many assets the fetch reported.
    pub fn count(&self) -> (r: usize)
        ensures
            r == self@.len(),
    {
        self.assets.len()
    }

    /// The asset at the given position of the result, in library order;
    /// nothing when the position is past the end.
    pub fn object_at(&self, index: usize) -> (r: Option<&Asset>)
        ensures
            index < self@.len() ==> match r {
                Some(a) => a@ == self@[index as int],
                None => false,
            },
            index >= self@.len() ==> r is None,
    {
        if index < self.assets.len() {
            Some(&self.assets[index])
        } else {
            None
        }
    }
}

impl Asset {
    /// Fetches, from the library's assets given in library order, those that
    /// carry one of the given local identifiers and that the options admit.
    pub fn fetch_with_local_identifiers(
        library: &Vec<Asset>,
        identifiers: &Vec<String>,
        options: Option<&FetchOptions>,
    ) -> (r: FetchResult)
        ensures
            r@ == spec_fetch(
                spec_asset_views(library@),
                Some(identifiers.deep_view()),
                spec_options_of(options),
            ),
    {
        let opts = match options {
            Some(o) => *o,
            None => FetchOptions::new(),
        };
        FetchResult { assets: fetch_filtered(library, Some(identifiers), &opts) }
    }

    /// Fetches, from the library's assets given in library order, every asset
    /// that the options admit.
    pub fn fetch_assets_with_options(library: &Vec<Asset>, options: Option<&FetchOptions>) -> (r:
        FetchResult)
        ensures
            r@ == spec_fetch(spec_asset_views(library@), None, spec_options_of(options)),
    {
        let opts = match options {
            Some(o) => *o,
            None => FetchOptions::new(),
        };
        FetchResult { assets: fetch_filtered(library, None, &opts) }
    }
}

/// From position `i` on, a fetch whose identifiers name no asset of the
/// library reports nothing.
proof fn lemma_fetch_from_unknown_identifiers(
    lib: Seq<AssetView>,
    ids: Seq<Seq<char>>,
    opts: FetchOptions,
    i: int,
)
    requires
        forall|k: int, j: int|
            0 <= k < lib.len() && 0 <= j < ids.len() ==> lib[k].local_id != ids[j],
    ensures
        spec_fetch_from(lib, Some(ids), opts, i) == Seq::<AssetView>::empty(),
    decreases lib.len() - i,
{
    if i < 0 || i >= lib.len() {
    } else {
        assert(!spec_ids_contain(ids, lib[i].local_id)) by {
            if spec_ids_contain(ids, lib[i].local_id) {
                let j = choose|j: int| 0 <= j < ids.len() && ids[j] == lib[i].local_id;
                assert(lib[i].local_id != ids[j]);
            }
        }
        lemma_fetch_from_unknown_identifiers(lib, ids, opts, i + 1);
    }
}

/// A fetch whose identifiers name no asset of the library reports nothing.
pub proof fn lemma_fetch_unknown_identifiers_empty(
    lib: Seq<AssetView>,
    ids: Seq<Seq<char>>,
    opts: FetchOptions,
)
    requires
        forall|k: int, j: int|
            0 <= k < lib.len() && 0 <= j < ids.len() ==> lib[k].local_id != ids[j],
    ensures
        spec_fetch(lib, Some(ids), opts) == Seq::<AssetView>::empty(),
{
    lemma_fetch_from_unknown_identifiers(lib, ids, opts, 0);
}

/// Options that say how requested image data is to be delivered.
#[derive(Clone, Copy, PartialEq, Eq, Structural)]
pub struct ImageRequestOptions {
    /// How results are delivered: one of the delivery-mode constants.
    pub delivery_mode: i32,
    /// Whether the request blocks its caller until the data is there.
    pub synchronous: bool,
    /// Whether the request may go to the network for data not on the device.
    pub network_access_allowed: bool,
}

/// The options an image request starts from: opportunistic delivery, not
/// synchronous, no network access.
pub open spec fn spec_default_image_request_options() -> ImageRequestOptions {
    ImageRequestOptions {
        delivery_mode: PH_IMAGE_REQUEST_OPTIONS_DELIVERY_MODE_OPPORTUNISTIC,
        synchronous: false,
        network_access_allowed: false,
    }
}

impl ImageRequestOptions {
    /// Creates image request options with their starting values.
    pub fn new() -> (r: ImageRequestOptions)
        ensures
            r == spec_default_image_request_options(),
    {
        ImageRequestOptions {
            delivery_mode: PH_IMAGE_REQUEST_OPTIONS_DELIVERY_MODE_OPPORTUNISTIC,
            synchronous: false,
            network_access_allowed: false,
        }
    }

    /// Sets the delivery mode for the request.
    pub fn set_delivery_mode(&mut self, mode: i32)
        ensures
            final(self).delivery_mode == mode,
            final(self).synchronous == old(self).synchronous,
            final(self).network_access_allowed == old(self).network_access_allowed,
    {
        self.delivery_mode = mode;
    }

    /// Sets whether the request blocks its caller until the data is there.
    pub fn set_synchronous(&mut self, synchronous: bool)
        ensures
            final(self).synchronous == synchronous,
            final(self).delivery_mode == old(self).delivery_mode,
            final(self).network_access_allowed == old(self).network_access_allowed,
    {
        self.synchronous = synchronous;
    }

    /// Sets whether the request may go to the network for data not on the
    /// device.
    pub fn set_network_access_allowed(&mut self, allowed: bool)
        ensures
            final(self).network_access_allowed == allowed,
            final(self).delivery_mode == old(self).delivery_mode,
            final(self).synchronous == old(self).synchronous,
    {
        self.network_access_allowed = allowed;
    }
}

/// What an [`ImageEntry`] value holds: the asset it serves and the data,
/// type identifier and orientation it delivers.
pub ghost struct ImageEntryView {
    pub asset_local_id: Seq<char>,
    pub data: Seq<u8>,
    pub data_uti: Option<Seq<char>>,
    pub orientation: u32,
}

/// The image data that a manager serves for one asset.
pub struct ImageEntry {
    /// The identifier of the asset the entry serves.
    pub asset_local_id: String,
    /// The image data itself.
    pub data: Vec<u8>,
    /// The uniform type identifier of the data, where one is known.
    pub data_uti: Option<String>,
    /// The image's orientation.
    pub orientation: u32,
}

impl View for ImageEntry {
    type V = ImageEntryView;

    open spec fn view(&self) -> ImageEntryView {
        ImageEntryView {
            asset_local_id: self.asset_local_id@,
            data: self.data@,
            data_uti: self.data_uti.deep_view(),
            orientation: self.orientation,
        }
    }
}

/// The entries of a manager, as the specification sees them.
pub open spec fn spec_image_entry_views(entries: Seq<ImageEntry>) -> Seq<ImageEntryView> {
    entries.map_values(|e: ImageEntry| e@)
}

/// The first entry that serves the given asset identifier, if any does.
pub open spec fn spec_lookup_image(entries: Seq<ImageEntryView>, id: Seq<char>) -> Option<
    ImageEntryView,
>
    decreases entries.len(),
{
    if entries.len() == 0 {
        None
    } else if entries[0].asset_local_id == id {
        Some(entries[0])
    } else {
        spec_lookup_image(entries.drop_first(), id)
    }
}

/// The value that an image-data request completes with, given what the native
/// handler received: present data completes the request with the data, its
/// type identifier and its orientation; absent data completes it with a
/// photo-library error instead.
pub fn image_request_outcome(
    image_data: Option<Vec<u8>>,
    data_uti: Option<String>,
    orientation: u32,
) -> (r: Result<(Vec<u8>, Option<String>, u32), ns::Error>)
    ensures
        match image_data {
            Some(d) => match r {
                Ok(t) => t.0@ == d@ && t.1.deep_view() == data_uti.deep_view() && t.2
                    == orientation,
                Err(_) => false,
            },
            None => match r {
                Ok(_) => false,
                Err(e) => e@.domain == spec_photos_error_domain() && e@.code == -1,
            },
        },
{
    match image_data {
        Some(d) => Ok((d, data_uti, orientation)),
        None => Err(ns::Error::with_domain(photos_error_domain(), -1)),
    }
}

/// Answers image-data requests from the entries it holds.
pub struct ImageManager {
    /// The entries the manager serves, one per asset it has data for.
    pub entries: Vec<ImageEntry>,
}

impl View for ImageManager {
    type V = Seq<ImageEntryView>;

    open spec fn view(&self) -> Seq<ImageEntryView> {
        spec_image_entry_views(self.entries@)
    }
}

impl ImageManager {
    /// Returns a manager that serves no image data yet.
    pub fn default() -> (r: ImageManager)
        ensures
            r@ == Seq::<ImageEntryView>::empty(),
    {
        let r = ImageManager { entries: Vec::new() };
        proof {
            assert(r@ =~= Seq::<ImageEntryView>::empty());
        }
        r
    }

    /// Requests image data and orientation for the asset: the first entry
    /// serving the asset's identifier decides the data, type identifier and
    /// orientation delivered; where no entry serves it, the request completes
    /// with a photo-library error. The options say how the native framework
    /// delivers; they leave what the manager serves unchanged.
    pub fn request_image_data_and_orientation_for_asset(
        &self,
        asset: &Asset,
        _options: Option<&ImageRequestOptions>,
    ) -> (r: Result<(Vec<u8>, Option<String>, u32), ns::Error>)
        ensures
            match spec_lookup_image(self@, asset@.local_id) {
                Some(e) => match r {
                    Ok(t) => t.0@ == e.data && t.1.deep_view() == e.data_uti && t.2
                        == e.orientation,
                    Err(_) => false,
                },
                None => match r {
                    Ok(_) => false,
                    Err(err) => err@.domain == spec_photos_error_domain() && err@.code == -1,
                },
            },
    {
        proof {
            assert(self@.skip(0) =~= self@);
        }
        let mut i: usize = 0;
        while i < self.entries.len()
            invariant
                i <= self.entries@.len(),
                self@.len() == self.entries@.len(),
                spec_lookup_image(self@, asset@.local_id) == spec_lookup_image(
                    self@.skip(i as int),
                    asset@.local_id,
                ),
            decreases self.entries@.len() - i,
        {
            proof {
                assert(self@.skip(i as int)[0] == self@[i as int]);
                assert(self@[i as int] == self.entries@[i as int]@);
                assert(self@.skip(i as int).drop_first() =~= self@.skip(i as int + 1));
            }
            if self.entries[i].asset_local_id == asset.local_id {
                let found = &self.entries[i];
                let data = ns::copy_data(&found.data);
                let uti = ns::copy_opt_string(&found.data_uti);
                return image_request_outcome(Some(data), uti, found.orientation);
            }
            i += 1;
        }
        proof {
            assert(self@.skip(self.entries@.len() as int).len() == 0);
        }
        image_request_outcome(None, None, 0)
    }
}

/// Options for a request of content-editing input.
#[derive(Clone, Copy, PartialEq, Eq, Structural)]
pub struct ContentEditingInputRequestOptions {
    /// Whether the request may go to the network for data not on the device.
    pub network_access_allowed: bool,
    /// Whether the caller can apply the asset's adjustment data itself.
    pub can_handle_adjustment_data: bool,
}

/// The options a content-editing request starts from: no network access, no
/// handling of adjustment data.
pub open spec fn spec_default_content_editing_options() -> ContentEditingInputRequestOptions {
    ContentEditingInputRequestOptions {
        network_access_allowed: false,
        can_handle_adjustment_data: false,
    }
}

impl ContentEditingInputRequestOptions {
    /// Creates content-editing request options with their starting values.
    pub fn new() -> (r: ContentEditingInputRequestOptions)
        ensures
            r == spec_default_content_editing_options(),
    {
        ContentEditingInputRequestOptions {
            network_access_allowed: false,
            can_handle_adjustment_data: false,
        }
    }

    /// Sets whether the request may go to the network for data not on the
    /// device.
    pub fn set_network_access_allowed(&mut self, allowed: bool)
        ensures
            final(self).network_access_allowed == allowed,
            final(self).can_handle_adjustment_data == old(self).can_handle_adjustment_data,
    {
        self.network_access_allowed = allowed;
    }

    /// Sets whether the caller can apply the asset's adjustment data itself.
    pub fn set_can_handle_adjustment_data(&mut self, can_handle: bool)
        ensures
            final(self).can_handle_adjustment_data == can_handle,
            final(self).network_access_allowed == old(self).network_access_allowed,
    {
        self.can_handle_adjustment_data = can_handle;
    }
}

/// What a [`ContentEditingInput`] value holds: where the full-size image
/// lies and what type it has, where known.
pub ghost struct ContentEditingInputView {
    pub full_size_image_url: Option<Seq<char>>,
    pub full_size_image_uti: Option<Seq<char>>,
}

/// The input that a content-editing session starts from.
pub struct ContentEditingInput {
    /// Where the full-size image lies, where known.
    pub full_size_image_url: Option<String>,
    /// The uniform type identifier of the full-size image, where known.
    pub full_size_image_uti: Option<String>,
}

impl View for ContentEditingInput {
    type V = ContentEditingInputView;

    open spec fn view(&self) -> ContentEditingInputView {
        ContentEditingInputView {
            full_size_image_url: self.full_size_image_url.deep_view(),
            full_size_image_uti: self.full_size_image_uti.deep_view(),
        }
    }
}

impl ContentEditingInput {
    /// Where the full-size image lies, where known.
    pub fn full_size_image_url(&self) -> (r: Option<&String>)
        ensures
            r.deep_view() == self@.full_size_image_url,
    {
        match &self.full_size_image_url {
            Some(u) => Some(u),
            None => None,
        }
    }

    /// The uniform type identifier of the full-size image, where known.
    pub fn full_size_image_uti(&self) -> (r: Option<&String>)
        ensures
            r.deep_view() == self@.full_size_image_uti,
    {
        match &self.full_size_image_uti {
            Some(u) => Some(u),
            None => None,
        }
    }
}

impl Clone for ContentEditingInput {
    fn clone(&self) -> (r: Self)
        ensures
            r@ == self@,
    {
        ContentEditingInput {
            full_size_image_url: ns::copy_opt_string(&self.full_size_image_url),
            full_size_image_uti: ns::copy_opt_string(&self.full_size_image_uti),
        }
    }
}

/// What a [`ContentEditingEntry`] value holds: the asset it serves and the
/// editing input it delivers.
pub ghost struct ContentEditingEntryView {
    pub asset_local_id: Seq<char>,
    pub input: ContentEditingInputView,
}

/// The content-editing input that the library serves for one asset.
pub struct ContentEditingEntry {
    /// The identifier of the asset the entry serves.
    pub asset_local_id: String,
    /// The editing input itself.
    pub input: ContentEditingInput,
}

impl View for ContentEditingEntry {
    type V = ContentEditingEntryView;

    open spec fn view(&self) -> ContentEditingEntryView {
        ContentEditingEntryView { asset_local_id: self.asset_local_id@, input: self.input@ }
    }
}

/// The content-editing entries of a library, as the specification sees them.
pub open spec fn spec_editing_entry_views(entries: Seq<ContentEditingEntry>) -> Seq<
    ContentEditingEntryView,
> {
    entries.map_values(|e: ContentEditingEntry| e@)
}

/// The first entry that serves the given asset identifier, if any does.
pub open spec fn spec_lookup_editing_input(
    entries: Seq<ContentEditingEntryView>,
    id: Seq<char>,
) -> Option<ContentEditingEntryView>
    decreases entries.len(),
{
    if entries.len() == 0 {
        None
    } else if entries[0].asset_local_id == id {
        Some(entries[0])
    } else {
        spec_lookup_editing_input(entries.drop_first(), id)
    }
}

impl Asset {
    /// Requests content editing input for the asset: the first entry serving
    /// the asset's identifier decides the input delivered; where no entry
    /// serves it, the request completes with a photo-library error. The
    /// options say how the native framework obtains the input; they leave
    /// what the library serves unchanged.
    pub fn request_content_editing_input_with_options(
        &self,
        entries: &Vec<ContentEditingEntry>,
        _options: Option<&ContentEditingInputRequestOptions>,
    ) -> (r: Result<ContentEditingInput, ns::Error>)
        ensures
            match spec_lookup_editing_input(spec_editing_entry_views(entries@), self@.local_id) {
                Some(e) => match r {
                    Ok(input) => input@ == e.input,
                    Err(_) => false,
                },
                None => match r {
                    Ok(_) => false,
                    Err(err) => err@.domain == spec_photos_error_domain() && err@.code == -1,
                },
            },
    {
        let ghost views = spec_editing_entry_views(entries@);
        proof {
            assert(views.skip(0) =~= views);
        }
        let mut i: usize = 0;
        while i < entries.len()
            invariant
                i <= entries@.len(),
                views == spec_editing_entry_views(entries@),
                spec_lookup_editing_input(views, self@.local_id) == spec_lookup_editing_input(
                    views.skip(i as int),
                    self@.local_id,
                ),
            decreases entries@.len() - i,
        {
            proof {
                assert(views.skip(i as int)[0] == views[i as int]);
                assert(views[i as int] == entries@[i as int]@);
                assert(views.skip(i as int).drop_first() =~= views.skip(i as int + 1));
            }
            if entries[i].asset_local_id == self.local_id {
                return Ok(entries[i].input.clone());
            }
            i += 1;
        }
        proof {
            assert(views.skip(entries@.len() as int).len() == 0);
        }
        Err(ns::Error::with_domain(photos_error_domain(), -1))
    }
}

/// What an [`AssetResource`] value holds: the asset it belongs to and its
/// resource type.
pub ghost struct AssetResourceView {
    pub asset_local_id: Seq<char>,
    pub resource_type: i32,
}

/// One stored resource of an asset: a photo, a video, adjustment data.
pub struct AssetResource {
    /// The identifier of the asset the resource belongs to.
    pub asset_local_id: String,
    /// The kind of resource: one of the resource-type constants.
    pub resource_type: i32,
}

impl View for AssetResource {
    type V = AssetResourceView;

    open spec fn view(&self) -> AssetResourceView {
        AssetResourceView {
            asset_local_id: self.asset_local_id@,
            resource_type: self.resource_type,
        }
    }
}

impl Clone for AssetResource {
    fn clone(&self) -> (r: Self)
        ensures
            r@ == self@,
    {
        AssetResource {
            asset_local_id: self.asset_local_id.clone(),
            resource_type: self.resource_type,
        }
    }
}

/// The resources of a catalogue, as the specification sees them.
pub open spec fn spec_resource_views(resources: Seq<AssetResource>) -> Seq<AssetResourceView> {
    resources.map_values(|r: AssetResource| r@)
}

/// The resources belonging to the given asset identifier, from position `i`
/// of the catalogue on, in catalogue order.
pub open spec fn spec_resources_from(
    resources: Seq<AssetResourceView>,
    id: Seq<char>,
    i: int,
) -> Seq<AssetResourceView>
    decreases resources.len() - i,
{
    if i < 0 || i >= resources.len() {
        Seq::empty()
    } else if resources[i].asset_local_id == id {
        seq![resources[i]] + spec_resources_from(resources, id, i + 1)
    } else {
        spec_resources_from(resources, id, i + 1)
    }
}

/// The resources belonging to the given asset identifier, in catalogue order.
pub open spec fn spec_resources_for(resources: Seq<AssetResourceView>, id: Seq<char>) -> Seq<
    AssetResourceView,
> {
    spec_resources_from(resources, id, 0)
}

impl AssetResource {
    /// Returns, from the catalogue's resources given in order, those that
    /// belong to the given asset, in the same order.
    pub fn resources_for_asset(resources: &Vec<AssetResource>, asset: &Asset) -> (r: Vec<
        AssetResource,
    >)
        ensures
            spec_resource_views(r@) == spec_resources_for(
                spec_resource_views(resources@),
                asset@.local_id,
            ),
    {
        let ghost all = spec_resource_views(resources@);
        let ghost id = asset@.local_id;
        let mut out: Vec<AssetResource> = Vec::new();
        proof {
            assert(spec_resource_views(out@) =~= Seq::empty());
            assert(Seq::<AssetResourceView>::empty() + spec_resources_from(all, id, 0)
                =~= spec_resources_from(all, id, 0));
        }
        let mut i: usize = 0;
        while i < resources.len()
            invariant
                i <= resources@.len(),
                all == spec_resource_views(resources@),
                id == asset@.local_id,
                spec_resource_views(out@) + spec_resources_from(all, id, i as int)
                    == spec_resources_for(all, id),
            decreases resources@.len() - i,
        {
            let ghost prev_views = spec_resource_views(out@);
            proof {
                assert(all[i as int] == resources@[i as int]@);
            }
            if resources[i].asset_local_id == asset.local_id {
                out.push(resources[i].clone());
                proof {
                    assert(spec_resource_views(out@) =~= prev_views.push(all[i as int]));
                    assert(prev_views + (seq![all[i as int]] + spec_resources_from(
                        all,
                        id,
                        i as int + 1,
                    )) =~= prev_views.push(all[i as int]) + spec_resources_from(
                        all,
                        id,
                        i as int + 1,
                    ));
                }
            }
            i += 1;
        }
        proof {
            assert(spec_resources_from(all, id, i as int) =~= Seq::empty());
            assert(spec_resource_views(out@) + Seq::<AssetResourceView>::empty()
                =~= spec_resource_views(out@));
        }
        out
    }

    /// Returns the type of this resource.
    pub fn resource_type(&self) -> (r: i32)
        ensures
            r == self@.resource_type,
    {
        self.resource_type
    }
}

/// What a [`ResourceData`] value holds: the resource it serves and the bytes
/// it delivers.
pub ghost struct ResourceDataView {
    pub asset_local_id: Seq<char>,
    pub resource_type: i32,
    pub data: Seq<u8>,
}

/// The stored bytes that a manager serves for one resource.
pub struct ResourceData {
    /// The identifier of the asset the resource belongs to.
    pub asset_local_id: String,
    /// The kind of resource the bytes belong to.
    pub resource_type: i32,
    /// The bytes themselves.
    pub data: Vec<u8>,
}

impl View for ResourceData {
    type V = ResourceDataView;

    open spec fn view(&self) -> ResourceDataView {
        ResourceDataView {
            asset_local_id: self.asset_local_id@,
            resource_type: self.resource_type,
            data: self.data@,
        }
    }
}

/// The entries of a resource manager, as the specification sees them.
pub open spec fn spec_resource_data_views(entries: Seq<ResourceData>) -> Seq<ResourceDataView> {
    entries.map_values(|e: ResourceData| e@)
}

/// The first entry that serves the given resource, if any does.
pub open spec fn spec_lookup_resource_data(
    entries: Seq<ResourceDataView>,
    resource: AssetResourceView,
) -> Option<ResourceDataView>
    decreases entries.len(),
{
    if entries.len() == 0 {
        None
    } else if entries[0].asset_local_id == resource.asset_local_id && entries[0].resource_type
        == resource.resource_type {
        Some(entries[0])
    } else {
        spec_lookup_resource_data(entries.drop_first(), resource)
    }
}

/// Answers resource-data requests from the entries it holds.
pub struct AssetResourceManager {
    /// The entries the manager serves, one per resource it has bytes for.
    pub entries: Vec<ResourceData>,
}

impl View for AssetResourceManager {
    type V = Seq<ResourceDataView>;

    open spec fn view(&self) -> Seq<ResourceDataView> {
        spec_resource_data_views(self.entries@)
    }
}

impl AssetResourceManager {
    /// Returns a manager that serves no resource data yet.
    pub fn default() -> (r: AssetResourceManager)
        ensures
            r@ == Seq::<ResourceDataView>::empty(),
    {
        let r = AssetResourceManager { entries: Vec::new() };
        proof {
            assert(r@ =~= Seq::<ResourceDataView>::empty());
        }
        r
    }

    /// Requests the data of the given resource: the first entry serving the
    /// resource's asset and type decides the bytes delivered; where no entry
    /// serves it, the request completes with a photo-library error. The
    /// options say how the native framework delivers; they leave what the
    /// manager serves unchanged.
    pub fn request_data_for_resource(
        &self,
        resource: &AssetResource,
        _options: Option<&AssetResourceRequestOptions>,
    ) -> (r: Result<Vec<u8>, ns::Error>)
        ensures
            match spec_lookup_resource_data(self@, resource@) {
                Some(e) => match r {
                    Ok(d) => d@ == e.data,
                    Err(_) => false,
                },
                None => match r {
                    Ok(_) => false,
                    Err(err) => err@.domain == spec_photos_error_domain() && err@.code == -1,
                },
            },
    {
        proof {
            assert(self@.skip(0) =~= self@);
        }
        let mut i: usize = 0;
        while i < self.entries.len()
            invariant
                i <= self.entries@.len(),
                self@.len() == self.entries@.len(),
                spec_lookup_resource_data(self@, resource@) == spec_lookup_resource_data(
                    self@.skip(i as int),
                    resource@,
                ),
            decreases self.entries@.len() - i,
        {
            proof {
                assert(self@.skip(i as int)[0] == self@[i as int]);
                assert(self@[i as int] == self.entries@[i as int]@);
                assert(self@.skip(i as int).drop_first() =~= self@.skip(i as int + 1));
            }
            if self.entries[i].asset_local_id == resource.asset_local_id && self.entries[i].resource_type
                == resource.resource_type {
                return Ok(ns::copy_data(&self.entries[i].data));
            }
            i += 1;
        }
        proof {
            assert(self@.skip(self.entries@.len() as int).len() == 0);
        }
        Err(ns::Error::with_domain(photos_error_domain(), -1))
    }
}

/// Options for a request of resource data.
#[derive(Clone, Copy, PartialEq, Eq, Structural)]
pub struct AssetResourceRequestOptions {
    /// Whether the request may go to the network for data not on the device.
    pub network_access_allowed: bool,
}

/// The options a resource-data request starts from: no network access.
pub open spec fn spec_default_resource_request_options() -> AssetResourceRequestOptions {
    AssetResourceRequestOptions { network_access_allowed: false }
}

impl AssetResourceRequestOptions {
    /// Creates resource-data request options with their starting values.
    pub fn new() -> (r: AssetResourceRequestOptions)
        ensures
            r == spec_default_resource_request_options(),
    {
        AssetResourceRequestOptions { network_access_allowed: false }
    }

    /// Sets whether the request may go to the network for data not on the
    /// device.
    pub fn set_network_access_allowed(&mut self, allowed: bool)
        ensures
            final(self).network_access_allowed == allowed,
    {
        self.network_access_allowed = allowed;
    }
}

} // verus!
