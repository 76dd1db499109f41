//! The block driver between the filesystem and the NOR flash.
//!
//! The filesystem speaks in offsets from the start of its own region; the
//! flash speaks in absolute addresses and only takes requests cut to its
//! granularity. [`FlashRegion`] checks a request and finds its address,
//! [`FlashImage`] is the flash array with the semantics of NOR cells, and
//! [`AppStorage`] is the driver that puts the two together.

use vstd::prelude::*;

verus! {

/// Address of the first byte of the filesystem's region on the flash.
pub const FLASH_OFFSET: u32 = 0x380000;

/// Size of the filesystem's region, in bytes.
pub const FLASH_SIZE: usize = 300 * 1024;

/// Size of an erase block, in bytes.
pub const BLOCK_SIZE: usize = 4096;

/// Granularity of reads, in bytes.
pub const READ_SIZE: usize = 16;

/// Granularity of writes, in bytes.
pub const WRITE_SIZE: usize = 16;

/// Number of erase blocks in the filesystem's region.
pub const BLOCK_COUNT: usize = FLASH_SIZE / BLOCK_SIZE;

/// Size of each cache that the filesystem keeps, in bytes.
pub const CACHE_SIZE: usize = 256;

/// Size of the filesystem's lookahead buffer, in units of eight bytes.
pub const LOOKAHEAD_SIZE: usize = 1;

/// Size of the flash array that a new driver stands on, in bytes.
pub const DEVICE_CAPACITY: usize = 0x400000;

/// What an erased cell holds.
pub const ERASED: u8 = 0xff;

/// The one failure that the driver reports: the request was not carried out.
#[derive(Debug, Clone, Copy, PartialEq, Eq, Structural)]
pub struct IoError;

/// The failure of the flash array itself: the request reaches past its end.
#[derive(Debug, Clone, Copy, PartialEq, Eq, Structural)]
pub struct OutOfBounds;

/// The flash after `data` has been programmed at `addr`: a NOR cell can only
/// lose bits, so each cell in range keeps the bits that old and new share.
pub open spec fn programmed(image: Seq<u8>, addr: int, data: Seq<u8>) -> Seq<u8> {
    Seq::new(
        image.len(),
        |i: int|
            if addr <= i < addr + data.len() {
                image[i] & data[i - addr]
            } else {
                image[i]
            },
    )
}

/// The flash after the cells of `[from, to)` have been erased.
pub open spec fn wiped(image: Seq<u8>, from: int, to: int) -> Seq<u8> {
    Seq::new(
        image.len(),
        |i: int|
            if from <= i < to {
                ERASED
            } else {
                image[i]
            },
    )
}

/// True when programming `data` at `addr` stores `data` itself: no cell in
/// range lacks a bit that `data` wants set.
pub open spec fn accepts(image: Seq<u8>, addr: int, data: Seq<u8>) -> bool {
    forall|i: int| 0 <= i < data.len() ==> #[trigger] image[addr + i] & data[i] == data[i]
}

/// True when every cell of `[from, to)` is erased.
pub open spec fn blank(image: Seq<u8>, from: int, to: int) -> bool {
    forall|i: int| from <= i < to ==> #[trigger] image[i] == ERASED
}

/// The place and geometry of the region that the filesystem owns.
#[derive(Debug, Clone, Copy, PartialEq, Eq, Structural)]
pub struct FlashRegion {
    /// Address of the region's first byte.
    pub offset: u32,
    /// Size of the region in bytes.
    pub size: usize,
    /// Size of an erase block.
    pub block_size: usize,
    /// Granularity of reads.
    pub read_size: usize,
    /// Granularity of writes.
    pub write_size: usize,
}

impl FlashRegion {
    /// True when the geometry is consistent: no granularity is zero, blocks
    /// are made of whole read and write units, the region of whole blocks,
    /// and its last byte has an address.
    pub open spec fn wf(&self) -> bool {
        &&& self.read_size > 0
        &&& self.write_size > 0
        &&& self.block_size > 0
        &&& self.block_size % self.read_size == 0
        &&& self.block_size % self.write_size == 0
        &&& self.size % self.block_size == 0
        &&& self.offset + self.size <= u32::MAX
    }

    /// True when `[off, off + len)` lies in the region.
    pub open spec fn contains(&self, off: int, len: int) -> bool {
        0 <= off && 0 <= len && off + len <= self.size
    }

    /// True when a read of `len` bytes at `off` is cut to the read granularity.
    pub open spec fn readable(&self, off: int, len: int) -> bool {
        self.contains(off, len) && off % (self.read_size as int) == 0 && len % (
        self.read_size as int) == 0
    }

    /// True when a write of `len` bytes at `off` is cut to the write granularity.
    pub open spec fn writable(&self, off: int, len: int) -> bool {
        self.contains(off, len) && off % (self.write_size as int) == 0 && len % (
        self.write_size as int) == 0
    }

    /// True when an erase of `len` bytes at `off` covers whole blocks, and at least one.
    pub open spec fn erasable(&self, off: int, len: int) -> bool {
        self.contains(off, len) && off % (self.block_size as int) == 0 && len % (
        self.block_size as int) == 0 && len >= self.block_size
    }

    /// The absolute address of the byte at offset `off` of the region.
    pub open spec fn address(&self, off: int) -> int {
        self.offset + off
    }

    /// The region that this device reserves for its filesystem.
    pub open spec fn app_spec() -> FlashRegion {
        FlashRegion {
            offset: FLASH_OFFSET,
            size: FLASH_SIZE,
            block_size: BLOCK_SIZE,
            read_size: READ_SIZE,
            write_size: WRITE_SIZE,
        }
    }

    /// The region that this device reserves for its filesystem.
    #[verifier::when_used_as_spec(app_spec)]
    pub fn app() -> (region: FlashRegion)
        ensures
            region.wf(),
            region == FlashRegion::app_spec(),
    {
        FlashRegion {
            offset: FLASH_OFFSET,
            size: FLASH_SIZE,
            block_size: BLOCK_SIZE,
            read_size: READ_SIZE,
            write_size: WRITE_SIZE,
        }
    }

    /// Tells whether the geometry is consistent.
    pub fn is_consistent(&self) -> (consistent: bool)
        ensures
            consistent == self.wf(),
    {
        self.read_size > 0 && self.write_size > 0 && self.block_size > 0 && self.block_size
            % self.read_size == 0 && self.block_size % self.write_size == 0 && self.size
            % self.block_size == 0 && self.size <= 0xffff_ffff && self.offset as usize
            <= 0xffff_ffff - self.size
    }

    fn aligned(&self, off: usize, len: usize, unit: usize) -> (ok: bool)
        requires
            unit > 0,
        ensures
            ok == (self.contains(off as int, len as int) && off % unit == 0 && len % unit == 0),
    {
        len <= self.size && off <= self.size - len && off % unit == 0 && len % unit == 0
    }

    /// Checks a read request and turns its offset into an address. A region
    /// whose geometry is inconsistent serves nothing.
    pub fn read_address(&self, off: usize, len: usize) -> (addr: Result<u32, IoError>)
        ensures
            addr is Ok <==> self.wf() && self.readable(off as int, len as int),
            addr matches Ok(a) ==> a == self.address(off as int),
    {
        if self.is_consistent() && self.aligned(off, len, self.read_size) {
            Ok(self.offset + off as u32)
        } else {
            Err(IoError)
        }
    }

    /// Checks a write request and turns its offset into an address. A region
    /// whose geometry is inconsistent serves nothing.
    pub fn write_address(&self, off: usize, len: usize) -> (addr: Result<u32, IoError>)
        ensures
            addr is Ok <==> self.wf() && self.writable(off as int, len as int),
            addr matches Ok(a) ==> a == self.address(off as int),
    {
        if self.is_consistent() && self.aligned(off, len, self.write_size) {
            Ok(self.offset + off as u32)
        } else {
            Err(IoError)
        }
    }

    /// Checks an erase request and turns it into the addresses of its first
    /// byte and of the byte after its last. A region whose geometry is
    /// inconsistent serves nothing.
    pub fn erase_range(&self, off: usize, len: usize) -> (range: Result<(u32, u32), IoError>)
        ensures
            range is Ok <==> self.wf() && self.erasable(off as int, len as int),
            range matches Ok(r) ==> r.0 == self.address(off as int) && r.1 == self.address(
                off as int,
            ) + len,
    {
        if self.is_consistent() && self.aligned(off, len, self.block_size) && len
            >= self.block_size {
            let from = self.offset + off as u32;
            Ok((from, from + len as u32))
        } else {
            Err(IoError)
        }
    }
}

/// What the driver hands back once the flash has answered: the length of
/// the request where the flash carried it out, the one I/O failure where it
/// did not, whatever the flash gave as its reason.
pub fn outcome<E>(len: usize, answer: Result<(), E>) -> (result: Result<usize, IoError>)
    ensures
        result == (if answer is Ok {
            Ok::<usize, IoError>(len)
        } else {
            Err::<usize, IoError>(IoError)
        }),
{
    match answer {
        Ok(_) => Ok(len),
        Err(_) => Err(IoError),
    }
}

/// A NOR flash array held in memory, addressed from zero.
#[derive(Debug, Clone, PartialEq, Eq)]
pub struct FlashImage {
    cells: Vec<u8>,
}

impl View for FlashImage {
    type V = Seq<u8>;

    closed spec fn view(&self) -> Seq<u8> {
        self.cells@
    }
}

impl FlashImage {
    /// A flash array of `capacity` bytes, all erased.
    pub fn erased(capacity: usize) -> (image: FlashImage)
        ensures
            image@.len() == capacity,
            blank(image@, 0, capacity as int),
    {
        FlashImage { cells: vec![ERASED; capacity] }
    }

    /// A flash array that holds `cells`.
    pub fn from_cells(cells: Vec<u8>) -> (image: FlashImage)
        ensures
            image@ == cells@,
    {
        FlashImage { cells }
    }

    /// The size of the array in bytes.
    pub fn capacity(&self) -> (capacity: usize)
        ensures
            capacity == self@.len(),
    {
        self.cells.len()
    }

    /// The cells of the array.
    pub fn cells(&self) -> (cells: &Vec<u8>)
        ensures
            cells@ == self@,
    {
        &self.cells
    }

    /// Copies the cells from `addr` on into `buf`, as many as `buf` holds.
    /// Fails, and leaves `buf` as it is, where that reaches past the end.
    pub fn read(&self, addr: u32, buf: &mut [u8]) -> (answer: Result<(), OutOfBounds>)
        ensures
            answer is Ok <==> addr + old(buf)@.len() <= self@.len(),
            final(buf)@.len() == old(buf)@.len(),
            answer is Ok ==> final(buf)@ == self@.subrange(addr as int, addr + old(buf)@.len()),
            answer is Err ==> final(buf)@ == old(buf)@,
    {
        let len = buf.len();
        let start = addr as usize;
        if len > self.cells.len() || start > self.cells.len() - len {
            return Err(OutOfBounds);
        }
        let mut i: usize = 0;
        while i < len
            invariant
                i <= len,
                len == buf@.len(),
                start + len <= self.cells.len(),
                forall|j: int| 0 <= j < i ==> buf@[j] == self.cells@[start + j],
            decreases len - i,
        {
            buf[i] = self.cells[start + i];
            i += 1;
        }
        Ok(())
    }

    /// Programs `data` into the cells from `addr` on. Fails, and changes
    /// nothing, where that reaches past the end.
    pub fn write(&mut self, addr: u32, data: &[u8]) -> (answer: Result<(), OutOfBounds>)
        ensures
            answer is Ok <==> addr + data@.len() <= old(self)@.len(),
            answer is Ok ==> final(self)@ == programmed(old(self)@, addr as int, data@),
            answer is Err ==> final(self)@ == old(self)@,
    {
        let len = data.len();
        let start = addr as usize;
        if len > self.cells.len() || start > self.cells.len() - len {
            return Err(OutOfBounds);
        }
        let mut i: usize = 0;
        while i < len
            invariant
                i <= len,
                len == data@.len(),
                start + len <= self.cells.len(),
                self.cells@.len() == old(self).cells@.len(),
                forall|j: int|
                    0 <= j < self.cells@.len() ==> self.cells@[j] == (if start <= j < start + i {
                        old(self).cells@[j] & data@[j - start]
                    } else {
                        old(self).cells@[j]
                    }),
            decreases len - i,
        {
            let cell = self.cells[start + i] & data[i];
            self.cells[start + i] = cell;
            i += 1;
        }
        Ok(())
    }

    /// Erases the cells of `[from, to)`. Fails, and changes nothing, where
    /// the range is reversed or reaches past the end.
    pub fn erase(&mut self, from: u32, to: u32) -> (answer: Result<(), OutOfBounds>)
        ensures
            answer is Ok <==> from <= to <= old(self)@.len(),
            answer is Ok ==> final(self)@ == wiped(old(self)@, from as int, to as int),
            answer is Err ==> final(self)@ == old(self)@,
    {
        let start = from as usize;
        let end = to as usize;
        if start > end || end > self.cells.len() {
            return Err(OutOfBounds);
        }
        let mut i: usize = start;
        while i < end
            invariant
                start <= i <= end,
                end <= self.cells.len(),
                self.cells@.len() == old(self).cells@.len(),
                forall|j: int|
                    0 <= j < self.cells@.len() ==> self.cells@[j] == (if start <= j < i {
                        ERASED
                    } else {
                        old(self).cells@[j]
                    }),
            decreases end - i,
        {
            self.cells[i] = ERASED;
            i += 1;
        }
        Ok(())
    }
}

/// What a read of `len` bytes at offset `off` returns from a flash that
/// holds `image`: the bytes, or the I/O failure where the request is not
/// cut to the region's geometry, the geometry is inconsistent, or the flash
/// ends before the range does.
pub open spec fn read_spec(region: FlashRegion, image: Seq<u8>, off: int, len: int) -> Result<
    Seq<u8>,
    IoError,
> {
    if region.wf() && region.readable(off, len) && region.address(off) + len <= image.len() {
        Ok(image.subrange(region.address(off), region.address(off) + len))
    } else {
        Err(IoError)
    }
}

/// What a write of `data` at offset `off` makes of a flash that holds
/// `image`, or the I/O failure where nothing is written.
pub open spec fn write_spec(region: FlashRegion, image: Seq<u8>, off: int, data: Seq<u8>) -> Result<
    Seq<u8>,
    IoError,
> {
    if region.wf() && region.writable(off, data.len() as int) && region.address(off) + data.len()
        <= image.len() {
        Ok(programmed(image, region.address(off), data))
    } else {
        Err(IoError)
    }
}

/// What an erase of `len` bytes at offset `off` makes of a flash that holds
/// `image`, or the I/O failure where nothing is erased.
pub open spec fn erase_spec(region: FlashRegion, image: Seq<u8>, off: int, len: int) -> Result<
    Seq<u8>,
    IoError,
> {
    if region.wf() && region.erasable(off, len) && region.address(off) + len <= image.len() {
        Ok(wiped(image, region.address(off), region.address(off) + len))
    } else {
        Err(IoError)
    }
}

/// The block driver: a region and the flash array it lies on.
#[derive(Debug, Clone, PartialEq, Eq)]
pub struct AppStorage {
    region: FlashRegion,
    flash: FlashImage,
}

impl AppStorage {
    /// The region that the driver serves.
    pub closed spec fn region(&self) -> FlashRegion {
        self.region
    }

    /// The cells of the flash that the driver stands on.
    pub closed spec fn flash(&self) -> Seq<u8> {
        self.flash@
    }

    /// The driver of this device's region, on a flash array fresh from the
    /// factory: [`DEVICE_CAPACITY`] bytes, all erased.
    pub fn new() -> (storage: AppStorage)
        ensures
            storage.region().wf(),
            storage.region() == FlashRegion::app(),
            storage.flash().len() == DEVICE_CAPACITY,
            blank(storage.flash(), 0, DEVICE_CAPACITY as int),
    {
        AppStorage { region: FlashRegion::app(), flash: FlashImage::erased(DEVICE_CAPACITY) }
    }

    /// The driver of `region` on the flash array `flash`. Over a region
    /// whose geometry is inconsistent every request fails.
    pub fn on(region: FlashRegion, flash: FlashImage) -> (storage: AppStorage)
        ensures
            storage.region() == region,
            storage.flash() == flash@,
    {
        AppStorage { region, flash }
    }

    /// Gives up the driver and hands back the flash array.
    pub fn into_flash(self) -> (flash: FlashImage)
        ensures
            flash@ == self.flash(),
    {
        self.flash
    }

    /// Reads `buf.len()` bytes at offset `off` of the region into `buf` and
    /// returns their number. A request that is not cut to the geometry, or
    /// that the flash cannot serve, fails and leaves `buf` as it was. The
    /// flash is never changed.
    pub fn read(&mut self, off: usize, buf: &mut [u8]) -> (result: Result<usize, IoError>)
        ensures
            final(self).region() == old(self).region(),
            final(self).flash() == old(self).flash(),
            final(buf)@.len() == old(buf)@.len(),
            match read_spec(old(self).region(), old(self).flash(), off as int, old(buf)@.len() as int) {
                Ok(bytes) => result == Ok::<usize, IoError>(old(buf)@.len() as usize) && final(buf)@
                    == bytes,
                Err(e) => result == Err::<usize, IoError>(e) && final(buf)@ == old(buf)@,
            },
    {
        let len = buf.len();
        match self.region.read_address(off, len) {
            Err(e) => Err(e),
            Ok(addr) => {
                let answer = self.flash.read(addr, buf);
                outcome(len, answer)
            },
        }
    }

    /// Writes `data` at offset `off` of the region and returns its length.
    /// The cells are programmed as they are: nothing is erased first. A
    /// request that is not cut to the geometry, or that the flash cannot
    /// serve, fails and changes no cell.
    pub fn write(&mut self, off: usize, data: &[u8]) -> (result: Result<usize, IoError>)
        ensures
            final(self).region() == old(self).region(),
            match write_spec(old(self).region(), old(self).flash(), off as int, data@) {
                Ok(image) => result == Ok::<usize, IoError>(data@.len() as usize) && final(self).flash() == image,
                Err(e) => result == Err::<usize, IoError>(e) && final(self).flash() == old(self).flash(),
            },
    {
        let len = data.len();
        match self.region.write_address(off, len) {
            Err(e) => Err(e),
            Ok(addr) => {
                let answer = self.flash.write(addr, data);
                outcome(len, answer)
            },
        }
    }

    /// Erases `len` bytes at offset `off` of the region and returns `len`.
    /// A request that does not cover whole blocks, or that the flash cannot
    /// serve, fails and changes no cell: nothing is rounded.
    pub fn erase(&mut self, off: usize, len: usize) -> (result: Result<usize, IoError>)
        ensures
            final(self).region() == old(self).region(),
            match erase_spec(old(self).region(), old(self).flash(), off as int, len as int) {
                Ok(image) => result == Ok::<usize, IoError>(len) && final(self).flash() == image,
                Err(e) => result == Err::<usize, IoError>(e) && final(self).flash() == old(self).flash(),
            },
    {
        match self.region.erase_range(off, len) {
            Err(e) => Err(e),
            Ok((from, to)) => {
                let answer = self.flash.erase(from, to);
                outcome(len, answer)
            },
        }
    }
}

/// The device's geometry is one that the filesystem can work with: the
/// region is made of its blocks and lies on the flash array, a block is no
/// smaller than the filesystem asks, and a cache holds whole read and write
/// units and divides a block.
pub proof fn lemma_geometry_suits_filesystem()
    ensures
        FlashRegion::app_spec().wf(),
        BLOCK_COUNT * BLOCK_SIZE == FLASH_SIZE,
        FLASH_OFFSET + FLASH_SIZE <= DEVICE_CAPACITY,
        BLOCK_SIZE >= 128,
        CACHE_SIZE % READ_SIZE == 0,
        CACHE_SIZE % WRITE_SIZE == 0,
        BLOCK_SIZE % CACHE_SIZE == 0,
        LOOKAHEAD_SIZE > 0,
{
}

/// An erased cell takes any byte.
pub proof fn lemma_blank_accepts(image: Seq<u8>, addr: int, data: Seq<u8>)
    requires
        blank(image, addr, addr + data.len()),
    ensures
        accepts(image, addr, data),
{
    assert forall|i: int| 0 <= i < data.len() implies #[trigger] image[addr + i] & data[i]
        == data[i] by {
        let d = data[i];
        assert(0xffu8 & d == d) by (bit_vector);
    }
}

/// A write followed by a read of the same range returns what was written,
/// provided the request is cut to both granularities, the flash has the
/// range, and its cells can take the data (as they can after an erase).
pub proof fn lemma_write_then_read(region: FlashRegion, image: Seq<u8>, off: int, data: Seq<u8>)
    requires
        region.wf(),
        region.writable(off, data.len() as int),
        region.readable(off, data.len() as int),
        region.address(off) + data.len() <= image.len(),
        accepts(image, region.address(off), data),
    ensures
        write_spec(region, image, off, data) matches Ok(after) && read_spec(
            region,
            after,
            off,
            data.len() as int,
        ) == Ok::<Seq<u8>, IoError>(data),
{
    let addr = region.address(off);
    let after = programmed(image, addr, data);
    assert forall|i: int| 0 <= i < data.len() implies after[addr + i] == data[i] by {}
    assert(after.subrange(addr, addr + data.len()) =~= data);
}

/// Erase, write, read: after the blocks under a range have been erased, a
/// write to the range followed by a read returns what was written, whatever
/// the flash held before.
pub proof fn lemma_erase_write_read(
    region: FlashRegion,
    image: Seq<u8>,
    block_off: int,
    block_len: int,
    off: int,
    data: Seq<u8>,
)
    requires
        region.wf(),
        region.erasable(block_off, block_len),
        region.writable(off, data.len() as int),
        region.readable(off, data.len() as int),
        block_off <= off,
        off + data.len() <= block_off + block_len,
        region.address(block_off) + block_len <= image.len(),
    ensures
        erase_spec(region, image, block_off, block_len) matches Ok(clean) && write_spec(
            region,
            clean,
            off,
            data,
        ) matches Ok(after) && read_spec(region, after, off, data.len() as int) == Ok::<
            Seq<u8>,
            IoError,
        >(data),
{
    let clean = wiped(image, region.address(block_off), region.address(block_off) + block_len);
    lemma_blank_accepts(clean, region.address(off), data);
    lemma_write_then_read(region, clean, off, data);
}

/// A request that is not cut to the geometry is refused, whatever the flash
/// holds: a read or write whose offset or length is no multiple of the
/// granularity, an erase that does not cover whole blocks.
pub proof fn lemma_misaligned_is_refused(
    region: FlashRegion,
    image: Seq<u8>,
    off: int,
    len: int,
    data: Seq<u8>,
)
    requires
        data.len() == len,
    ensures
        off % (region.read_size as int) != 0 || len % (region.read_size as int) != 0 ==> read_spec(
            region,
            image,
            off,
            len,
        ) is Err,
        off % (region.write_size as int) != 0 || len % (region.write_size as int) != 0
            ==> write_spec(region, image, off, data) is Err,
        off % (region.block_size as int) != 0 || len % (region.block_size as int) != 0
            ==> erase_spec(region, image, off, len) is Err,
{
}

/// The driver stays in its region: no write and no erase changes a cell
/// outside it, nor the size of the flash.
pub proof fn lemma_stays_in_region(region: FlashRegion, image: Seq<u8>, off: int, data: Seq<u8>, i: int)
    requires
        0 <= i < image.len(),
        i < region.offset || i >= region.offset + region.size,
    ensures
        write_spec(region, image, off, data) matches Ok(after) ==> after.len() == image.len()
            && after[i] == image[i],
        erase_spec(region, image, off, data.len() as int) matches Ok(after) ==> after.len()
            == image.len() && after[i] == image[i],
{
}

} // verus!
