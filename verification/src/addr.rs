//! Virtual and physical memory addresses.

pub mod align;
pub mod bits;
pub mod phys;
pub mod text;
pub mod virt;

pub use self::align::align_down;
pub use self::align::align_up;
pub use self::align::is_aligned;
pub use self::align::ALIGN_1GIB;
pub use self::align::ALIGN_2MIB;
pub use self::align::ALIGN_4KIB;
pub use self::phys::PhysAddr;
pub use self::phys::PhysAddrNotValid;
pub use self::virt::VirtAddr;
pub use self::virt::VirtAddrNotValid;
pub use self::virt::VirtAddrRange;
