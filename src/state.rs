use vstd::prelude::*;

verus! {

/// Number of custody entries that a batch slot reserves room for.
pub const HISTORY_CAPACITY: usize = 10;

/// Longest batch identifier, in UTF-8 bytes, that a new batch may carry.
pub const MAX_BATCH_ID_LEN: usize = 64;

/// Encoded width of one custody entry: a key followed by a timestamp.
pub const ENTRY_WIDTH: usize = 40;

/// A 32-byte public-key identifier of a principal or of a program.
#[derive(Clone, Copy, Debug)]
pub struct Pubkey(pub [u8; 32]);

impl View for Pubkey {
    type V = Seq<u8>;

    open spec fn view(&self) -> Seq<u8> {
        self.0@
    }
}

impl Pubkey {
    /// The key made of the given 32 bytes.
    pub fn new_from_array(bytes: [u8; 32]) -> (r: Pubkey)
        ensures
            r@ == bytes@,
    {
        Pubkey(bytes)
    }

    /// The 32 bytes of the key.
    pub fn to_bytes(&self) -> (r: [u8; 32])
        ensures
            r@ == self@,
    {
        self.0
    }

    /// Whether two keys hold the same bytes.
    pub fn same_key(&self, other: &Pubkey) -> (r: bool)
        ensures
            r == (self@ == other@),
    {
        let mut i: usize = 0;
        while i < 32
            invariant
                0 <= i <= 32,
                self@.len() == 32,
                other@.len() == 32,
                forall|j: int| 0 <= j < i ==> self@[j] == other@[j],
            decreases 32 - i,
        {
            if self.0[i] != other.0[i] {
                return false;
            }
            i = i + 1;
        }
        assert(self@ =~= other@);
        true
    }
}

/// What one custody entry holds.
pub ghost struct EntryView {
    pub owner: Seq<u8>,
    pub timestamp: i64,
}

/// One link of a batch's chain of custody.
#[derive(Clone, Copy, Debug)]
pub struct OwnershipRecord {
    pub owner: Pubkey,
    pub timestamp: i64,
}

impl View for OwnershipRecord {
    type V = EntryView;

    open spec fn view(&self) -> EntryView {
        EntryView { owner: self.owner@, timestamp: self.timestamp }
    }
}

/// What a batch record holds.
pub ghost struct BatchView {
    pub batch_id: Seq<char>,
    pub manufacturer: Seq<u8>,
    pub current_owner: Seq<u8>,
    pub created_at: i64,
    pub ownership_history: Seq<EntryView>,
    pub is_active: bool,
}

/// The UTF-8 bytes of an identifier.
pub open spec fn id_bytes(id: Seq<char>) -> Seq<u8> {
    vstd::utf8::encode_utf8(id)
}

impl BatchView {
    /// The invariants that every successfully written record satisfies: the
    /// history is non-empty, starts with the manufacturer at creation time,
    /// ends with the current owner, and fits the reserved room.
    pub open spec fn wf(self) -> bool {
        &&& id_bytes(self.batch_id).len() <= MAX_BATCH_ID_LEN
        &&& self.manufacturer.len() == 32
        &&& self.current_owner.len() == 32
        &&& 1 <= self.ownership_history.len() <= HISTORY_CAPACITY
        &&& self.ownership_history[0] == (EntryView {
            owner: self.manufacturer,
            timestamp: self.created_at,
        })
        &&& self.ownership_history.last().owner == self.current_owner
        &&& forall|i: int|
            0 <= i < self.ownership_history.len() ==> #[trigger] self.ownership_history[i].owner.len()
                == 32
    }
}

/// A batch record as it is stored in its slot.
#[derive(Clone, Debug)]
pub struct BatchAccount {
    pub batch_id: String,
    pub manufacturer: Pubkey,
    pub current_owner: Pubkey,
    pub created_at: i64,
    pub ownership_history: Vec<OwnershipRecord>,
    pub is_active: bool,
}

/// The views of a sequence of custody entries.
pub open spec fn history_view(h: Seq<OwnershipRecord>) -> Seq<EntryView> {
    h.map_values(|e: OwnershipRecord| e@)
}

impl View for BatchAccount {
    type V = BatchView;

    open spec fn view(&self) -> BatchView {
        BatchView {
            batch_id: self.batch_id@,
            manufacturer: self.manufacturer@,
            current_owner: self.current_owner@,
            created_at: self.created_at,
            ownership_history: history_view(self.ownership_history@),
            is_active: self.is_active,
        }
    }
}

/// Slot capacity for an identifier of `id_len` bytes: length prefix and
/// identifier, two keys, the creation time, the history count with room for
/// the full history, and the active flag.
pub open spec fn capacity_for(id_len: nat) -> nat {
    (4 + id_len + 32 + 32 + 8 + 4 + HISTORY_CAPACITY * ENTRY_WIDTH + 1) as nat
}

impl BatchAccount {
    /// The number of bytes to allocate for a batch whose identifier is
    /// `batch_id_len` bytes long.
    pub fn get_account_size(batch_id_len: usize) -> (r: usize)
        requires
            batch_id_len <= usize::MAX - 481,
        ensures
            r == capacity_for(batch_id_len as nat),
    {
        4 + batch_id_len + 32 + 32 + 8 + 4 + (HISTORY_CAPACITY * ENTRY_WIDTH) + 1
    }
}

} // verus!
