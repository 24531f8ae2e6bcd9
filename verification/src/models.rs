//! Data model of the console: buckets, objects, storage tiers and the
//! restore lifecycle, with the small presentation helpers other components
//! depend on for status messages.

use vstd::prelude::*;

use crate::text::{dec_digits, digit_char, digit_str, u64_to_string};

verus! {

/// A storage bucket as reported by the backend listing.
pub struct BucketInfo {
    pub name: String,
    pub region: Option<String>,
    pub creation_date: Option<String>,
}

impl Clone for BucketInfo {
    fn clone(&self) -> (r: Self)
        ensures
            r == *self,
    {
        BucketInfo {
            name: self.name.clone(),
            region: match &self.region {
                Some(s) => Some(s.clone()),
                None => None,
            },
            creation_date: match &self.creation_date {
                Some(s) => Some(s.clone()),
                None => None,
            },
        }
    }
}

/// Lifecycle of a restore request for an archived object.
#[derive(Debug, PartialEq, Eq)]
pub enum RestoreState {
    Available,
    Expired,
    InProgress { expiry: Option<String> },
}

/// Mathematical view of a restore lifecycle state: the expiry timestamp is
/// seen as its character sequence.
pub enum RestoreStateView {
    Available,
    Expired,
    InProgress { expiry: Option<Seq<char>> },
}

impl View for RestoreState {
    type V = RestoreStateView;

    open spec fn view(&self) -> RestoreStateView {
        match self {
            RestoreState::Available => RestoreStateView::Available,
            RestoreState::Expired => RestoreStateView::Expired,
            RestoreState::InProgress { expiry } => RestoreStateView::InProgress {
                expiry: match expiry {
                    Some(s) => Some(s@),
                    None => None,
                },
            },
        }
    }
}

impl Clone for RestoreState {
    fn clone(&self) -> (r: Self)
        ensures
            r == *self,
    {
        match self {
            RestoreState::Available => RestoreState::Available,
            RestoreState::Expired => RestoreState::Expired,
            RestoreState::InProgress { expiry } => RestoreState::InProgress {
                expiry: match expiry {
                    Some(s) => Some(s.clone()),
                    None => None,
                },
            },
        }
    }
}

/// The storage class an object resides in.
#[derive(Clone, Copy, Debug, PartialEq, Eq, Structural)]
pub enum StorageClassTier {
    Standard,
    IntelligentTiering,
    StandardIa,
    OnezoneIa,
    GlacierInstantRetrieval,
    GlacierFlexibleRetrieval,
    DeepArchive,
    Unknown,
}

impl StorageClassTier {
    /// The backend's name for this tier.
    pub open spec fn label_spec(self) -> Seq<char> {
        match self {
            StorageClassTier::Standard => "STANDARD"@,
            StorageClassTier::IntelligentTiering => "INTELLIGENT_TIERING"@,
            StorageClassTier::StandardIa => "STANDARD_IA"@,
            StorageClassTier::OnezoneIa => "ONEZONE_IA"@,
            StorageClassTier::GlacierInstantRetrieval => "GLACIER_IR"@,
            StorageClassTier::GlacierFlexibleRetrieval => "GLACIER"@,
            StorageClassTier::DeepArchive => "DEEP_ARCHIVE"@,
            StorageClassTier::Unknown => "UNKNOWN"@,
        }
    }

    pub fn label(&self) -> (r: &'static str)
        ensures
            r@ == self.label_spec(),
    {
        match self {
            StorageClassTier::Standard => "STANDARD",
            StorageClassTier::IntelligentTiering => "INTELLIGENT_TIERING",
            StorageClassTier::StandardIa => "STANDARD_IA",
            StorageClassTier::OnezoneIa => "ONEZONE_IA",
            StorageClassTier::GlacierInstantRetrieval => "GLACIER_IR",
            StorageClassTier::GlacierFlexibleRetrieval => "GLACIER",
            StorageClassTier::DeepArchive => "DEEP_ARCHIVE",
            StorageClassTier::Unknown => "UNKNOWN",
        }
    }

    /// Whether an object may be migrated into this tier. The unknown tier is
    /// read-only: it stands for classes the console does not manage.
    pub open spec fn is_valid_target_spec(self) -> bool {
        !(self is Unknown)
    }

    pub fn is_valid_target(&self) -> (r: bool)
        ensures
            r == self.is_valid_target_spec(),
    {
        !matches!(self, StorageClassTier::Unknown)
    }

    /// The tiers an operator may pick as a migration target, in menu order.
    pub open spec fn selectable_spec() -> Seq<StorageClassTier> {
        seq![
            StorageClassTier::Standard,
            StorageClassTier::IntelligentTiering,
            StorageClassTier::StandardIa,
            StorageClassTier::OnezoneIa,
            StorageClassTier::GlacierInstantRetrieval,
            StorageClassTier::GlacierFlexibleRetrieval,
            StorageClassTier::DeepArchive,
        ]
    }

    pub fn selectable() -> (r: Vec<StorageClassTier>)
        ensures
            r@ == Self::selectable_spec(),
            forall|i: int| 0 <= i < r@.len() ==> (#[trigger] r@[i]).is_valid_target_spec(),
    {
        let mut r: Vec<StorageClassTier> = Vec::new();
        r.push(StorageClassTier::Standard);
        r.push(StorageClassTier::IntelligentTiering);
        r.push(StorageClassTier::StandardIa);
        r.push(StorageClassTier::OnezoneIa);
        r.push(StorageClassTier::GlacierInstantRetrieval);
        r.push(StorageClassTier::GlacierFlexibleRetrieval);
        r.push(StorageClassTier::DeepArchive);
        proof {
            assert(r@ =~= Self::selectable_spec());
        }
        r
    }
}

/// An object in the current bucket's listing.
pub struct ObjectInfo {
    pub key: String,
    pub size: i64,
    pub last_modified: Option<String>,
    pub storage_class: StorageClassTier,
    pub restore_state: Option<RestoreState>,
}

impl Clone for ObjectInfo {
    fn clone(&self) -> (r: Self)
        ensures
            r == *self,
    {
        ObjectInfo {
            key: self.key.clone(),
            size: self.size,
            last_modified: match &self.last_modified {
                Some(s) => Some(s.clone()),
                None => None,
            },
            storage_class: self.storage_class,
            restore_state: match &self.restore_state {
                Some(s) => Some(s.clone()),
                None => None,
            },
        }
    }
}

/// One-line description of a restore lifecycle state.
pub open spec fn restore_state_text(s: RestoreState) -> Seq<char> {
    match s {
        RestoreState::Available => "available"@,
        RestoreState::Expired => "expired"@,
        RestoreState::InProgress { expiry } => match expiry {
            Some(e) => "in-progress (ready until "@ + e@ + ")"@,
            None => "in-progress"@,
        },
    }
}

/// Renders a restore lifecycle state for the status feed.
pub fn describe_restore_state(state: &RestoreState) -> (r: String)
    ensures
        r@ == restore_state_text(*state),
{
    match state {
        RestoreState::Available => String::from_str("available"),
        RestoreState::Expired => String::from_str("expired"),
        RestoreState::InProgress { expiry } => match expiry {
            Some(e) => {
                let mut s = String::from_str("in-progress (ready until ");
                s.append(e.as_str());
                s.append(")");
                s
            },
            None => String::from_str("in-progress"),
        },
    }
}

pub const BYTES_PER_KB: u64 = 1024;

pub const BYTES_PER_MB: u64 = 1024 * 1024;

pub const BYTES_PER_GB: u64 = 1024 * 1024 * 1024;

/// `size / unit`, rounded to the nearest hundredth and scaled by 100.
pub open spec fn scaled_hundredths(size: int, unit: int) -> int {
    (size * 100 + unit / 2) / unit
}

/// A quantity of hundredths rendered with two decimal places.
pub open spec fn two_decimals(h: int) -> Seq<char> {
    dec_digits((h / 100) as nat) + "."@ + seq![
        digit_char(((h % 100) / 10) as nat),
        digit_char((h % 10) as nat),
    ]
}

/// Human-readable size: two decimals of the largest unit the size exceeds.
pub open spec fn size_text(size: int) -> Seq<char> {
    if size > BYTES_PER_GB {
        two_decimals(scaled_hundredths(size, BYTES_PER_GB as int)) + " GB"@
    } else if size > BYTES_PER_MB {
        two_decimals(scaled_hundredths(size, BYTES_PER_MB as int)) + " MB"@
    } else if size > BYTES_PER_KB {
        two_decimals(scaled_hundredths(size, BYTES_PER_KB as int)) + " KB"@
    } else {
        dec_digits(size as nat) + " B"@
    }
}

fn format_scaled(size: i64, unit: u64, suffix: &'static str) -> (r: String)
    requires
        size >= 0,
        1024 <= unit <= BYTES_PER_GB,
    ensures
        r@ == two_decimals(scaled_hundredths(size as int, unit as int)) + suffix@,
{
    let h128: u128 = ((size as u128) * 100 + (unit / 2) as u128) / (unit as u128);
    proof {
        let num = size as int * 100 + unit as int / 2;
        assert(h128 as int == num / (unit as int));
        vstd::arithmetic::div_mod::lemma_div_is_ordered_by_denominator(num, 1024, unit as int);
        vstd::arithmetic::div_mod::lemma_div_is_ordered(
            num,
            0x7fff_ffff_ffff_ffffi128 as int * 100 + 0x2000_0000,
            1024,
        );
        assert((0x7fff_ffff_ffff_ffffi128 as int * 100 + 0x2000_0000) / 1024
            < 0xffff_ffff_ffff_ffff);
    }
    let h: u64 = h128 as u64;
    proof {
        assert(h as int == scaled_hundredths(size as int, unit as int));
    }
    let mut s = u64_to_string(h / 100);
    s.append(".");
    let f = h % 100;
    s.append(digit_str(f / 10));
    s.append(digit_str(f % 10));
    s.append(suffix);
    proof {
        assert(s@ =~= two_decimals(h as int) + suffix@);
    }
    s
}

/// Renders an object size with the unit the original listing uses.
pub fn format_size(size: i64) -> (r: String)
    requires
        size >= 0,
    ensures
        r@ == size_text(size as int),
{
    if size > BYTES_PER_GB as i64 {
        format_scaled(size, BYTES_PER_GB, " GB")
    } else if size > BYTES_PER_MB as i64 {
        format_scaled(size, BYTES_PER_MB, " MB")
    } else if size > BYTES_PER_KB as i64 {
        format_scaled(size, BYTES_PER_KB, " KB")
    } else {
        let mut s = u64_to_string(size as u64);
        s.append(" B");
        s
    }
}

} // verus!
