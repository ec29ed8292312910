//! Guest memory: the region handed to the guest and the loading of an image into it.

use vstd::prelude::*;

verus! {

/// The size of the guest's memory, in bytes.
pub const GUEST_MEMORY_SIZE: usize = 1_024_000;

/// A region of host memory as a virtual machine is told of it.
#[derive(Clone, Copy, Debug, PartialEq, Eq)]
pub struct MemoryRegion {
    /// The number that tells the regions of one virtual machine apart.
    pub slot: u32,
    /// Flags for the region; none are used.
    pub flags: u32,
    /// Where the region starts in the guest's physical addresses.
    pub guest_phys_addr: u64,
    /// The size of the region in bytes.
    pub memory_size: u64,
    /// Where the region starts in the monitor's own addresses.
    pub userspace_addr: u64,
}

impl MemoryRegion {
    /// The one region that the guest has: slot 0, from guest address 0 on,
    /// without flags.
    pub open spec fn guest_region(memory_size: u64, userspace_addr: u64) -> MemoryRegion {
        MemoryRegion { slot: 0, flags: 0, guest_phys_addr: 0, memory_size, userspace_addr }
    }

    /// Describes the guest's memory, `memory_size` bytes that the monitor
    /// holds at `userspace_addr`.
    pub fn guest(memory_size: u64, userspace_addr: u64) -> (region: MemoryRegion)
        ensures
            region == Self::guest_region(memory_size, userspace_addr),
    {
        MemoryRegion { slot: 0, flags: 0, guest_phys_addr: 0, memory_size, userspace_addr }
    }
}

/// Why an image was not loaded.
#[derive(Clone, Copy, Debug, PartialEq, Eq)]
pub enum LoadError {
    /// The image has more bytes than the region.
    ImageTooLarge { image_len: usize, region_len: usize },
}

/// What a region holds once `image` has been loaded into it: the image from
/// offset 0 on, and behind it the bytes that were there before.
pub open spec fn loaded(region: Seq<u8>, image: Seq<u8>) -> Seq<u8> {
    image + region.skip(image.len() as int)
}

/// Copies `image` to the start of `region`, or refuses and leaves the
/// region as it was when the image does not fit.
pub fn load_image(region: &mut [u8], image: &[u8]) -> (res: Result<(), LoadError>)
    ensures
        image@.len() <= old(region)@.len() ==> res.is_ok() && final(region)@ == loaded(
            old(region)@,
            image@,
        ),
        image@.len() > old(region)@.len() ==> res == Err::<(), LoadError>(
            LoadError::ImageTooLarge { image_len: image.len(), region_len: old(region).len() },
        ) && final(region)@ == old(region)@,
{
    let n: usize = image.len();
    let m: usize = region.len();
    if n > m {
        return Err(LoadError::ImageTooLarge { image_len: n, region_len: m });
    }
    let mut i: usize = 0;
    while i < n
        invariant
            i <= n <= m,
            n == image@.len(),
            m == region@.len(),
            region@.len() == old(region)@.len(),
            forall|j: int| 0 <= j < i ==> region@[j] == image@[j],
            forall|j: int| i <= j < m ==> region@[j] == old(region)@[j],
        decreases n - i,
    {
        region[i] = image[i];
        i += 1;
    }
    Ok(())
}

/// An image that fits is read back from the region byte for byte, from
/// offset 0 on; the region keeps its length, and what lies behind the image
/// is what was there before.
pub proof fn lemma_loaded_reads_back(region: Seq<u8>, image: Seq<u8>)
    requires
        image.len() <= region.len(),
    ensures
        loaded(region, image).len() == region.len(),
        loaded(region, image).take(image.len() as int) == image,
        forall|i: int| image.len() <= i < region.len() ==> loaded(region, image)[i] == region[i],
{
    assert(loaded(region, image).take(image.len() as int) =~= image);
}

} // verus!
