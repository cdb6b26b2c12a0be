//! Boolean and integer cells offering the interface of the types of
//! `std::sync::atomic`, for code that runs in one execution context.
use std::sync::atomic::Ordering;
use vstd::prelude::*;

verus! {

/// A boolean with the operations of an atomic boolean.
///
/// Every [`Ordering`] argument is accepted and ignored: no operation here
/// races with another.
pub struct AtomicBool {
    v: bool,
}

impl View for AtomicBool {
    type V = bool;

    closed spec fn view(&self) -> bool {
        self.v
    }
}

impl AtomicBool {
    /// Creates a cell holding `val`.
    pub fn new(val: bool) -> (r: Self)
        ensures
            r@ == val,
    {
        AtomicBool { v: val }
    }

    /// Returns a mutable reference to the stored boolean.
    pub fn get_mut(&mut self) -> (r: &mut bool)
        ensures
            *r == old(self)@,
            final(self)@ == *final(r),
    {
        &mut self.v
    }

    /// Loads the current value.
    pub fn load(&self, _order: Ordering) -> (r: bool)
        ensures
            r == self@,
    {
        self.v
    }

    /// Stores `val`.
    pub fn store(&mut self, val: bool, _order: Ordering)
        ensures
            final(self)@ == val,
    {
        self.v = val;
    }

    /// Stores `val` and returns the value it replaced.
    pub fn swap(&mut self, val: bool, _order: Ordering) -> (r: bool)
        ensures
            r == old(self)@,
            final(self)@ == val,
    {
        let prev = self.v;
        self.v = val;
        prev
    }

    /// Stores `new` if the current value is `current`.
    ///
    /// Returns `Ok(previous)` when the value was replaced and `Err(previous)`
    /// when it was left alone.
    pub fn compare_exchange(
        &mut self,
        current: bool,
        new: bool,
        _success: Ordering,
        _failure: Ordering,
    ) -> (r: Result<bool, bool>)
        ensures
            old(self)@ == current ==> r == Ok::<bool, bool>(current) && final(self)@ == new,
            old(self)@ != current ==> r == Err::<bool, bool>(old(self)@) && final(self)@ == old(
                self,
            )@,
    {
        let prev = self.v;
        if prev == current {
            self.v = new;
            Ok(prev)
        } else {
            Err(prev)
        }
    }

    /// Same as [`AtomicBool::compare_exchange`]: without rivals a weak
    /// exchange never fails spuriously.
    pub fn compare_exchange_weak(
        &mut self,
        current: bool,
        new: bool,
        success: Ordering,
        failure: Ordering,
    ) -> (r: Result<bool, bool>)
        ensures
            old(self)@ == current ==> r == Ok::<bool, bool>(current) && final(self)@ == new,
            old(self)@ != current ==> r == Err::<bool, bool>(old(self)@) && final(self)@ == old(
                self,
            )@,
    {
        self.compare_exchange(current, new, success, failure)
    }

    /// Logical "and" with `val`; returns the previous value.
    pub fn fetch_and(&mut self, val: bool, _order: Ordering) -> (r: bool)
        ensures
            r == old(self)@,
            final(self)@ == (old(self)@ && val),
    {
        let prev = self.v;
        self.v = prev && val;
        prev
    }

    /// Logical "nand" with `val`; returns the previous value.
    pub fn fetch_nand(&mut self, val: bool, _order: Ordering) -> (r: bool)
        ensures
            r == old(self)@,
            final(self)@ == !(old(self)@ && val),
    {
        let prev = self.v;
        self.v = !(prev && val);
        prev
    }

    /// Logical "not" of the stored value; returns the previous value.
    pub fn fetch_not(&mut self, _order: Ordering) -> (r: bool)
        ensures
            r == old(self)@,
            final(self)@ == !old(self)@,
    {
        let prev = self.v;
        self.v = !prev;
        prev
    }

    /// Logical "or" with `val`; returns the previous value.
    pub fn fetch_or(&mut self, val: bool, _order: Ordering) -> (r: bool)
        ensures
            r == old(self)@,
            final(self)@ == (old(self)@ || val),
    {
        let prev = self.v;
        self.v = prev || val;
        prev
    }

    /// Logical "xor" with `val`; returns the previous value.
    pub fn fetch_xor(&mut self, val: bool, _order: Ordering) -> (r: bool)
        ensures
            r == old(self)@,
            final(self)@ == (old(self)@ != val),
    {
        let prev = self.v;
        self.v = prev ^ val;
        prev
    }
}

impl From<bool> for AtomicBool {
    fn from(val: bool) -> (r: Self)
        ensures
            r@ == val,
    {
        Self::new(val)
    }
}

impl vstd::std_specs::convert::FromSpecImpl<bool> for AtomicBool {
    open spec fn obeys_from_spec() -> bool {
        true
    }

    closed spec fn from_spec(val: bool) -> Self {
        AtomicBool { v: val }
    }
}

impl Default for AtomicBool {
    fn default() -> (r: Self)
        ensures
            r@ == false,
    {
        Self::new(false)
    }
}

/// An integer of type `u8` with the operations of an atomic integer.
///
/// Every [`Ordering`] argument is accepted and ignored: no operation here
/// races with another.
pub struct AtomicU8 {
    v: u8,
}

impl View for AtomicU8 {
    type V = u8;

    closed spec fn view(&self) -> u8 {
        self.v
    }
}

impl AtomicU8 {
    /// Creates a cell holding `val`.
    pub fn new(val: u8) -> (r: Self)
        ensures
            r@ == val,
    {
        AtomicU8 { v: val }
    }

    /// Returns a mutable reference to the stored integer.
    pub fn get_mut(&mut self) -> (r: &mut u8)
        ensures
            *r == old(self)@,
            final(self)@ == *final(r),
    {
        &mut self.v
    }

    /// Loads the current value.
    pub fn load(&self, _order: Ordering) -> (r: u8)
        ensures
            r == self@,
    {
        self.v
    }

    /// Stores `val`.
    pub fn store(&mut self, val: u8, _order: Ordering)
        ensures
            final(self)@ == val,
    {
        self.v = val;
    }

    /// Stores `val` and returns the value it replaced.
    pub fn swap(&mut self, val: u8, _order: Ordering) -> (r: u8)
        ensures
            r == old(self)@,
            final(self)@ == val,
    {
        let prev = self.v;
        self.v = val;
        prev
    }

    /// Stores `new` if the current value is `current`.
    ///
    /// Returns `Ok(previous)` when the value was replaced and `Err(previous)`
    /// when it was left alone.
    pub fn compare_exchange(
        &mut self,
        current: u8,
        new: u8,
        _success: Ordering,
        _failure: Ordering,
    ) -> (r: Result<u8, u8>)
        ensures
            old(self)@ == current ==> r == Ok::<u8, u8>(current) && final(self)@ == new,
            old(self)@ != current ==> r == Err::<u8, u8>(old(self)@) && final(self)@ == old(self)@,
    {
        let prev = self.v;
        if prev == current {
            self.v = new;
            Ok(prev)
        } else {
            Err(prev)
        }
    }

    /// Same as [`AtomicU8::compare_exchange`]: without rivals a weak exchange
    /// never fails spuriously.
    pub fn compare_exchange_weak(
        &mut self,
        current: u8,
        new: u8,
        success: Ordering,
        failure: Ordering,
    ) -> (r: Result<u8, u8>)
        ensures
            old(self)@ == current ==> r == Ok::<u8, u8>(current) && final(self)@ == new,
            old(self)@ != current ==> r == Err::<u8, u8>(old(self)@) && final(self)@ == old(self)@,
    {
        self.compare_exchange(current, new, success, failure)
    }

    /// Adds `val`, wrapping around at the bounds of `u8` as an atomic
    /// integer does; returns the previous value.
    pub fn fetch_add(&mut self, val: u8, _order: Ordering) -> (r: u8)
        ensures
            r == old(self)@,
            final(self)@ == vstd::wrapping::u8_specs::wrapping_add(old(self)@, val),
    {
        let prev = self.v;
        self.v = prev.wrapping_add(val);
        prev
    }

    /// Subtracts `val`, wrapping around at the bounds of `u8` as an atomic
    /// integer does; returns the previous value.
    pub fn fetch_sub(&mut self, val: u8, _order: Ordering) -> (r: u8)
        ensures
            r == old(self)@,
            final(self)@ == vstd::wrapping::u8_specs::wrapping_sub(old(self)@, val),
    {
        let prev = self.v;
        self.v = prev.wrapping_sub(val);
        prev
    }

    /// Bitwise "and" with `val`; returns the previous value.
    pub fn fetch_and(&mut self, val: u8, _order: Ordering) -> (r: u8)
        ensures
            r == old(self)@,
            final(self)@ == old(self)@ & val,
    {
        let prev = self.v;
        self.v = prev & val;
        prev
    }

    /// Bitwise "nand" with `val`; returns the previous value.
    pub fn fetch_nand(&mut self, val: u8, _order: Ordering) -> (r: u8)
        ensures
            r == old(self)@,
            final(self)@ == !(old(self)@ & val),
    {
        let prev = self.v;
        self.v = !(prev & val);
        prev
    }

    /// Bitwise "or" with `val`; returns the previous value.
    pub fn fetch_or(&mut self, val: u8, _order: Ordering) -> (r: u8)
        ensures
            r == old(self)@,
            final(self)@ == old(self)@ | val,
    {
        let prev = self.v;
        self.v = prev | val;
        prev
    }

    /// Bitwise "xor" with `val`; returns the previous value.
    pub fn fetch_xor(&mut self, val: u8, _order: Ordering) -> (r: u8)
        ensures
            r == old(self)@,
            final(self)@ == old(self)@ ^ val,
    {
        let prev = self.v;
        self.v = prev ^ val;
        prev
    }

    /// Stores the larger of the current value and `val`; returns the
    /// previous value.
    pub fn fetch_max(&mut self, val: u8, _order: Ordering) -> (r: u8)
        ensures
            r == old(self)@,
            final(self)@ == if old(self)@ >= val {
                old(self)@
            } else {
                val
            },
    {
        let prev = self.v;
        if val > prev {
            self.v = val;
        }
        prev
    }

    /// Stores the smaller of the current value and `val`; returns the
    /// previous value.
    pub fn fetch_min(&mut self, val: u8, _order: Ordering) -> (r: u8)
        ensures
            r == old(self)@,
            final(self)@ == if old(self)@ <= val {
                old(self)@
            } else {
                val
            },
    {
        let prev = self.v;
        if val < prev {
            self.v = val;
        }
        prev
    }
}

impl From<u8> for AtomicU8 {
    fn from(val: u8) -> (r: Self)
        ensures
            r@ == val,
    {
        Self::new(val)
    }
}

impl vstd::std_specs::convert::FromSpecImpl<u8> for AtomicU8 {
    open spec fn obeys_from_spec() -> bool {
        true
    }

    closed spec fn from_spec(val: u8) -> Self {
        AtomicU8 { v: val }
    }
}

impl Default for AtomicU8 {
    fn default() -> (r: Self)
        ensures
            r@ == 0,
    {
        Self::new(0)
    }
}

/// An integer of type `u16` with the operations of an atomic integer.
///
/// Every [`Ordering`] argument is accepted and ignored: no operation here
/// races with another.
pub struct AtomicU16 {
    v: u16,
}

impl View for AtomicU16 {
    type V = u16;

    closed spec fn view(&self) -> u16 {
        self.v
    }
}

impl AtomicU16 {
    /// Creates a cell holding `val`.
    pub fn new(val: u16) -> (r: Self)
        ensures
            r@ == val,
    {
        AtomicU16 { v: val }
    }

    /// Returns a mutable reference to the stored integer.
    pub fn get_mut(&mut self) -> (r: &mut u16)
        ensures
            *r == old(self)@,
            final(self)@ == *final(r),
    {
        &mut self.v
    }

    /// Loads the current value.
    pub fn load(&self, _order: Ordering) -> (r: u16)
        ensures
            r == self@,
    {
        self.v
    }

    /// Stores `val`.
    pub fn store(&mut self, val: u16, _order: Ordering)
        ensures
            final(self)@ == val,
    {
        self.v = val;
    }

    /// Stores `val` and returns the value it replaced.
    pub fn swap(&mut self, val: u16, _order: Ordering) -> (r: u16)
        ensures
            r == old(self)@,
            final(self)@ == val,
    {
        let prev = self.v;
        self.v = val;
        prev
    }

    /// Stores `new` if the current value is `current`.
    ///
    /// Returns `Ok(previous)` when the value was replaced and `Err(previous)`
    /// when it was left alone.
    pub fn compare_exchange(
        &mut self,
        current: u16,
        new: u16,
        _success: Ordering,
        _failure: Ordering,
    ) -> (r: Result<u16, u16>)
        ensures
            old(self)@ == current ==> r == Ok::<u16, u16>(current) && final(self)@ == new,
            old(self)@ != current ==> r == Err::<u16, u16>(old(self)@) && final(self)@ == old(self)@,
    {
        let prev = self.v;
        if prev == current {
            self.v = new;
            Ok(prev)
        } else {
            Err(prev)
        }
    }

    /// Same as [`AtomicU16::compare_exchange`]: without rivals a weak exchange
    /// never fails spuriously.
    pub fn compare_exchange_weak(
        &mut self,
        current: u16,
        new: u16,
        success: Ordering,
        failure: Ordering,
    ) -> (r: Result<u16, u16>)
        ensures
            old(self)@ == current ==> r == Ok::<u16, u16>(current) && final(self)@ == new,
            old(self)@ != current ==> r == Err::<u16, u16>(old(self)@) && final(self)@ == old(self)@,
    {
        self.compare_exchange(current, new, success, failure)
    }

    /// Adds `val`, wrapping around at the bounds of `u16` as an atomic
    /// integer does; returns the previous value.
    pub fn fetch_add(&mut self, val: u16, _order: Ordering) -> (r: u16)
        ensures
            r == old(self)@,
            final(self)@ == vstd::wrapping::u16_specs::wrapping_add(old(self)@, val),
    {
        let prev = self.v;
        self.v = prev.wrapping_add(val);
        prev
    }

    /// Subtracts `val`, wrapping around at the bounds of `u16` as an atomic
    /// integer does; returns the previous value.
    pub fn fetch_sub(&mut self, val: u16, _order: Ordering) -> (r: u16)
        ensures
            r == old(self)@,
            final(self)@ == vstd::wrapping::u16_specs::wrapping_sub(old(self)@, val),
    {
        let prev = self.v;
        self.v = prev.wrapping_sub(val);
        prev
    }

    /// Bitwise "and" with `val`; returns the previous value.
    pub fn fetch_and(&mut self, val: u16, _order: Ordering) -> (r: u16)
        ensures
            r == old(self)@,
            final(self)@ == old(self)@ & val,
    {
        let prev = self.v;
        self.v = prev & val;
        prev
    }

    /// Bitwise "nand" with `val`; returns the previous value.
    pub fn fetch_nand(&mut self, val: u16, _order: Ordering) -> (r: u16)
        ensures
            r == old(self)@,
            final(self)@ == !(old(self)@ & val),
    {
        let prev = self.v;
        self.v = !(prev & val);
        prev
    }

    /// Bitwise "or" with `val`; returns the previous value.
    pub fn fetch_or(&mut self, val: u16, _order: Ordering) -> (r: u16)
        ensures
            r == old(self)@,
            final(self)@ == old(self)@ | val,
    {
        let prev = self.v;
        self.v = prev | val;
        prev
    }

    /// Bitwise "xor" with `val`; returns the previous value.
    pub fn fetch_xor(&mut self, val: u16, _order: Ordering) -> (r: u16)
        ensures
            r == old(self)@,
            final(self)@ == old(self)@ ^ val,
    {
        let prev = self.v;
        self.v = prev ^ val;
        prev
    }

    /// Stores the larger of the current value and `val`; returns the
    /// previous value.
    pub fn fetch_max(&mut self, val: u16, _order: Ordering) -> (r: u16)
        ensures
            r == old(self)@,
            final(self)@ == if old(self)@ >= val {
                old(self)@
            } else {
                val
            },
    {
        let prev = self.v;
        if val > prev {
            self.v = val;
        }
        prev
    }

    /// Stores the smaller of the current value and `val`; returns the
    /// previous value.
    pub fn fetch_min(&mut self, val: u16, _order: Ordering) -> (r: u16)
        ensures
            r == old(self)@,
            final(self)@ == if old(self)@ <= val {
                old(self)@
            } else {
                val
            },
    {
        let prev = self.v;
        if val < prev {
            self.v = val;
        }
        prev
    }
}

impl From<u16> for AtomicU16 {
    fn from(val: u16) -> (r: Self)
        ensures
            r@ == val,
    {
        Self::new(val)
    }
}

impl vstd::std_specs::convert::FromSpecImpl<u16> for AtomicU16 {
    open spec fn obeys_from_spec() -> bool {
        true
    }

    closed spec fn from_spec(val: u16) -> Self {
        AtomicU16 { v: val }
    }
}

impl Default for AtomicU16 {
    fn default() -> (r: Self)
        ensures
            r@ == 0,
    {
        Self::new(0)
    }
}

/// An integer of type `u32` with the operations of an atomic integer.
///
/// Every [`Ordering`] argument is accepted and ignored: no operation here
/// races with another.
pub struct AtomicU32 {
    v: u32,
}

impl View for AtomicU32 {
    type V = u32;

    closed spec fn view(&self) -> u32 {
        self.v
    }
}

impl AtomicU32 {
    /// Creates a cell holding `val`.
    pub fn new(val: u32) -> (r: Self)
        ensures
            r@ == val,
    {
        AtomicU32 { v: val }
    }

    /// Returns a mutable reference to the stored integer.
    pub fn get_mut(&mut self) -> (r: &mut u32)
        ensures
            *r == old(self)@,
            final(self)@ == *final(r),
    {
        &mut self.v
    }

    /// Loads the current value.
    pub fn load(&self, _order: Ordering) -> (r: u32)
        ensures
            r == self@,
    {
        self.v
    }

    /// Stores `val`.
    pub fn store(&mut self, val: u32, _order: Ordering)
        ensures
            final(self)@ == val,
    {
        self.v = val;
    }

    /// Stores `val` and returns the value it replaced.
    pub fn swap(&mut self, val: u32, _order: Ordering) -> (r: u32)
        ensures
            r == old(self)@,
            final(self)@ == val,
    {
        let prev = self.v;
        self.v = val;
        prev
    }

    /// Stores `new` if the current value is `current`.
    ///
    /// Returns `Ok(previous)` when the value was replaced and `Err(previous)`
    /// when it was left alone.
    pub fn compare_exchange(
        &mut self,
        current: u32,
        new: u32,
        _success: Ordering,
        _failure: Ordering,
    ) -> (r: Result<u32, u32>)
        ensures
            old(self)@ == current ==> r == Ok::<u32, u32>(current) && final(self)@ == new,
            old(self)@ != current ==> r == Err::<u32, u32>(old(self)@) && final(self)@ == old(self)@,
    {
        let prev = self.v;
        if prev == current {
            self.v = new;
            Ok(prev)
        } else {
            Err(prev)
        }
    }

    /// Same as [`AtomicU32::compare_exchange`]: without rivals a weak exchange
    /// never fails spuriously.
    pub fn compare_exchange_weak(
        &mut self,
        current: u32,
        new: u32,
        success: Ordering,
        failure: Ordering,
    ) -> (r: Result<u32, u32>)
        ensures
            old(self)@ == current ==> r == Ok::<u32, u32>(current) && final(self)@ == new,
            old(self)@ != current ==> r == Err::<u32, u32>(old(self)@) && final(self)@ == old(self)@,
    {
        self.compare_exchange(current, new, success, failure)
    }

    /// Adds `val`, wrapping around at the bounds of `u32` as an atomic
    /// integer does; returns the previous value.
    pub fn fetch_add(&mut self, val: u32, _order: Ordering) -> (r: u32)
        ensures
            r == old(self)@,
            final(self)@ == vstd::wrapping::u32_specs::wrapping_add(old(self)@, val),
    {
        let prev = self.v;
        self.v = prev.wrapping_add(val);
        prev
    }

    /// Subtracts `val`, wrapping around at the bounds of `u32` as an atomic
    /// integer does; returns the previous value.
    pub fn fetch_sub(&mut self, val: u32, _order: Ordering) -> (r: u32)
        ensures
            r == old(self)@,
            final(self)@ == vstd::wrapping::u32_specs::wrapping_sub(old(self)@, val),
    {
        let prev = self.v;
        self.v = prev.wrapping_sub(val);
        prev
    }

    /// Bitwise "and" with `val`; returns the previous value.
    pub fn fetch_and(&mut self, val: u32, _order: Ordering) -> (r: u32)
        ensures
            r == old(self)@,
            final(self)@ == old(self)@ & val,
    {
        let prev = self.v;
        self.v = prev & val;
        prev
    }

    /// Bitwise "nand" with `val`; returns the previous value.
    pub fn fetch_nand(&mut self, val: u32, _order: Ordering) -> (r: u32)
        ensures
            r == old(self)@,
            final(self)@ == !(old(self)@ & val),
    {
        let prev = self.v;
        self.v = !(prev & val);
        prev
    }

    /// Bitwise "or" with `val`; returns the previous value.
    pub fn fetch_or(&mut self, val: u32, _order: Ordering) -> (r: u32)
        ensures
            r == old(self)@,
            final(self)@ == old(self)@ | val,
    {
        let prev = self.v;
        self.v = prev | val;
        prev
    }

    /// Bitwise "xor" with `val`; returns the previous value.
    pub fn fetch_xor(&mut self, val: u32, _order: Ordering) -> (r: u32)
        ensures
            r == old(self)@,
            final(self)@ == old(self)@ ^ val,
    {
        let prev = self.v;
        self.v = prev ^ val;
        prev
    }

    /// Stores the larger of the current value and `val`; returns the
    /// previous value.
    pub fn fetch_max(&mut self, val: u32, _order: Ordering) -> (r: u32)
        ensures
            r == old(self)@,
            final(self)@ == if old(self)@ >= val {
                old(self)@
            } else {
                val
            },
    {
        let prev = self.v;
        if val > prev {
            self.v = val;
        }
        prev
    }

    /// Stores the smaller of the current value and `val`; returns the
    /// previous value.
    pub fn fetch_min(&mut self, val: u32, _order: Ordering) -> (r: u32)
        ensures
            r == old(self)@,
            final(self)@ == if old(self)@ <= val {
                old(self)@
            } else {
                val
            },
    {
        let prev = self.v;
        if val < prev {
            self.v = val;
        }
        prev
    }
}

impl From<u32> for AtomicU32 {
    fn from(val: u32) -> (r: Self)
        ensures
            r@ == val,
    {
        Self::new(val)
    }
}

impl vstd::std_specs::convert::FromSpecImpl<u32> for AtomicU32 {
    open spec fn obeys_from_spec() -> bool {
        true
    }

    closed spec fn from_spec(val: u32) -> Self {
        AtomicU32 { v: val }
    }
}

impl Default for AtomicU32 {
    fn default() -> (r: Self)
        ensures
            r@ == 0,
    {
        Self::new(0)
    }
}

/// An integer of type `u64` with the operations of an atomic integer.
///
/// Every [`Ordering`] argument is accepted and ignored: no operation here
/// races with another.
pub struct AtomicU64 {
    v: u64,
}

impl View for AtomicU64 {
    type V = u64;

    closed spec fn view(&self) -> u64 {
        self.v
    }
}

impl AtomicU64 {
    /// Creates a cell holding `val`.
    pub fn new(val: u64) -> (r: Self)
        ensures
            r@ == val,
    {
        AtomicU64 { v: val }
    }

    /// Returns a mutable reference to the stored integer.
    pub fn get_mut(&mut self) -> (r: &mut u64)
        ensures
            *r == old(self)@,
            final(self)@ == *final(r),
    {
        &mut self.v
    }

    /// Loads the current value.
    pub fn load(&self, _order: Ordering) -> (r: u64)
        ensures
            r == self@,
    {
        self.v
    }

    /// Stores `val`.
    pub fn store(&mut self, val: u64, _order: Ordering)
        ensures
            final(self)@ == val,
    {
        self.v = val;
    }

    /// Stores `val` and returns the value it replaced.
    pub fn swap(&mut self, val: u64, _order: Ordering) -> (r: u64)
        ensures
            r == old(self)@,
            final(self)@ == val,
    {
        let prev = self.v;
        self.v = val;
        prev
    }

    /// Stores `new` if the current value is `current`.
    ///
    /// Returns `Ok(previous)` when the value was replaced and `Err(previous)`
    /// when it was left alone.
    pub fn compare_exchange(
        &mut self,
        current: u64,
        new: u64,
        _success: Ordering,
        _failure: Ordering,
    ) -> (r: Result<u64, u64>)
        ensures
            old(self)@ == current ==> r == Ok::<u64, u64>(current) && final(self)@ == new,
            old(self)@ != current ==> r == Err::<u64, u64>(old(self)@) && final(self)@ == old(self)@,
    {
        let prev = self.v;
        if prev == current {
            self.v = new;
            Ok(prev)
        } else {
            Err(prev)
        }
    }

    /// Same as [`AtomicU64::compare_exchange`]: without rivals a weak exchange
    /// never fails spuriously.
    pub fn compare_exchange_weak(
        &mut self,
        current: u64,
        new: u64,
        success: Ordering,
        failure: Ordering,
    ) -> (r: Result<u64, u64>)
        ensures
            old(self)@ == current ==> r == Ok::<u64, u64>(current) && final(self)@ == new,
            old(self)@ != current ==> r == Err::<u64, u64>(old(self)@) && final(self)@ == old(self)@,
    {
        self.compare_exchange(current, new, success, failure)
    }

    /// Adds `val`, wrapping around at the bounds of `u64` as an atomic
    /// integer does; returns the previous value.
    pub fn fetch_add(&mut self, val: u64, _order: Ordering) -> (r: u64)
        ensures
            r == old(self)@,
            final(self)@ == vstd::wrapping::u64_specs::wrapping_add(old(self)@, val),
    {
        let prev = self.v;
        self.v = prev.wrapping_add(val);
        prev
    }

    /// Subtracts `val`, wrapping around at the bounds of `u64` as an atomic
    /// integer does; returns the previous value.
    pub fn fetch_sub(&mut self, val: u64, _order: Ordering) -> (r: u64)
        ensures
            r == old(self)@,
            final(self)@ == vstd::wrapping::u64_specs::wrapping_sub(old(self)@, val),
    {
        let prev = self.v;
        self.v = prev.wrapping_sub(val);
        prev
    }

    /// Bitwise "and" with `val`; returns the previous value.
    pub fn fetch_and(&mut self, val: u64, _order: Ordering) -> (r: u64)
        ensures
            r == old(self)@,
            final(self)@ == old(self)@ & val,
    {
        let prev = self.v;
        self.v = prev & val;
        prev
    }

    /// Bitwise "nand" with `val`; returns the previous value.
    pub fn fetch_nand(&mut self, val: u64, _order: Ordering) -> (r: u64)
        ensures
            r == old(self)@,
            final(self)@ == !(old(self)@ & val),
    {
        let prev = self.v;
        self.v = !(prev & val);
        prev
    }

    /// Bitwise "or" with `val`; returns the previous value.
    pub fn fetch_or(&mut self, val: u64, _order: Ordering) -> (r: u64)
        ensures
            r == old(self)@,
            final(self)@ == old(self)@ | val,
    {
        let prev = self.v;
        self.v = prev | val;
        prev
    }

    /// Bitwise "xor" with `val`; returns the previous value.
    pub fn fetch_xor(&mut self, val: u64, _order: Ordering) -> (r: u64)
        ensures
            r == old(self)@,
            final(self)@ == old(self)@ ^ val,
    {
        let prev = self.v;
        self.v = prev ^ val;
        prev
    }

    /// Stores the larger of the current value and `val`; returns the
    /// previous value.
    pub fn fetch_max(&mut self, val: u64, _order: Ordering) -> (r: u64)
        ensures
            r == old(self)@,
            final(self)@ == if old(self)@ >= val {
                old(self)@
            } else {
                val
            },
    {
        let prev = self.v;
        if val > prev {
            self.v = val;
        }
        prev
    }

    /// Stores the smaller of the current value and `val`; returns the
    /// previous value.
    pub fn fetch_min(&mut self, val: u64, _order: Ordering) -> (r: u64)
        ensures
            r == old(self)@,
            final(self)@ == if old(self)@ <= val {
                old(self)@
            } else {
                val
            },
    {
        let prev = self.v;
        if val < prev {
            self.v = val;
        }
        prev
    }
}

impl From<u64> for AtomicU64 {
    fn from(val: u64) -> (r: Self)
        ensures
            r@ == val,
    {
        Self::new(val)
    }
}

impl vstd::std_specs::convert::FromSpecImpl<u64> for AtomicU64 {
    open spec fn obeys_from_spec() -> bool {
        true
    }

    closed spec fn from_spec(val: u64) -> Self {
        AtomicU64 { v: val }
    }
}

impl Default for AtomicU64 {
    fn default() -> (r: Self)
        ensures
            r@ == 0,
    {
        Self::new(0)
    }
}

/// An integer of type `usize` with the operations of an atomic integer.
///
/// Every [`Ordering`] argument is accepted and ignored: no operation here
/// races with another.
pub struct AtomicUsize {
    v: usize,
}

impl View for AtomicUsize {
    type V = usize;

    closed spec fn view(&self) -> usize {
        self.v
    }
}

impl AtomicUsize {
    /// Creates a cell holding `val`.
    pub fn new(val: usize) -> (r: Self)
        ensures
            r@ == val,
    {
        AtomicUsize { v: val }
    }

    /// Returns a mutable reference to the stored integer.
    pub fn get_mut(&mut self) -> (r: &mut usize)
        ensures
            *r == old(self)@,
            final(self)@ == *final(r),
    {
        &mut self.v
    }

    /// Loads the current value.
    pub fn load(&self, _order: Ordering) -> (r: usize)
        ensures
            r == self@,
    {
        self.v
    }

    /// Stores `val`.
    pub fn store(&mut self, val: usize, _order: Ordering)
        ensures
            final(self)@ == val,
    {
        self.v = val;
    }

    /// Stores `val` and returns the value it replaced.
    pub fn swap(&mut self, val: usize, _order: Ordering) -> (r: usize)
        ensures
            r == old(self)@,
            final(self)@ == val,
    {
        let prev = self.v;
        self.v = val;
        prev
    }

    /// Stores `new` if the current value is `current`.
    ///
    /// Returns `Ok(previous)` when the value was replaced and `Err(previous)`
    /// when it was left alone.
    pub fn compare_exchange(
        &mut self,
        current: usize,
        new: usize,
        _success: Ordering,
        _failure: Ordering,
    ) -> (r: Result<usize, usize>)
        ensures
            old(self)@ == current ==> r == Ok::<usize, usize>(current) && final(self)@ == new,
            old(self)@ != current ==> r == Err::<usize, usize>(old(self)@) && final(self)@ == old(self)@,
    {
        let prev = self.v;
        if prev == current {
            self.v = new;
            Ok(prev)
        } else {
            Err(prev)
        }
    }

    /// Same as [`AtomicUsize::compare_exchange`]: without rivals a weak exchange
    /// never fails spuriously.
    pub fn compare_exchange_weak(
        &mut self,
        current: usize,
        new: usize,
        success: Ordering,
        failure: Ordering,
    ) -> (r: Result<usize, usize>)
        ensures
            old(self)@ == current ==> r == Ok::<usize, usize>(current) && final(self)@ == new,
            old(self)@ != current ==> r == Err::<usize, usize>(old(self)@) && final(self)@ == old(self)@,
    {
        self.compare_exchange(current, new, success, failure)
    }

    /// Adds `val`, wrapping around at the bounds of `usize` as an atomic
    /// integer does; returns the previous value.
    pub fn fetch_add(&mut self, val: usize, _order: Ordering) -> (r: usize)
        ensures
            r == old(self)@,
            final(self)@ == vstd::wrapping::usize_specs::wrapping_add(old(self)@, val),
    {
        let prev = self.v;
        self.v = prev.wrapping_add(val);
        prev
    }

    /// Subtracts `val`, wrapping around at the bounds of `usize` as an atomic
    /// integer does; returns the previous value.
    pub fn fetch_sub(&mut self, val: usize, _order: Ordering) -> (r: usize)
        ensures
            r == old(self)@,
            final(self)@ == vstd::wrapping::usize_specs::wrapping_sub(old(self)@, val),
    {
        let prev = self.v;
        self.v = prev.wrapping_sub(val);
        prev
    }

    /// Bitwise "and" with `val`; returns the previous value.
    pub fn fetch_and(&mut self, val: usize, _order: Ordering) -> (r: usize)
        ensures
            r == old(self)@,
            final(self)@ == old(self)@ & val,
    {
        let prev = self.v;
        self.v = prev & val;
        prev
    }

    /// Bitwise "nand" with `val`; returns the previous value.
    pub fn fetch_nand(&mut self, val: usize, _order: Ordering) -> (r: usize)
        ensures
            r == old(self)@,
            final(self)@ == !(old(self)@ & val),
    {
        let prev = self.v;
        self.v = !(prev & val);
        prev
    }

    /// Bitwise "or" with `val`; returns the previous value.
    pub fn fetch_or(&mut self, val: usize, _order: Ordering) -> (r: usize)
        ensures
            r == old(self)@,
            final(self)@ == old(self)@ | val,
    {
        let prev = self.v;
        self.v = prev | val;
        prev
    }

    /// Bitwise "xor" with `val`; returns the previous value.
    pub fn fetch_xor(&mut self, val: usize, _order: Ordering) -> (r: usize)
        ensures
            r == old(self)@,
            final(self)@ == old(self)@ ^ val,
    {
        let prev = self.v;
        self.v = prev ^ val;
        prev
    }

    /// Stores the larger of the current value and `val`; returns the
    /// previous value.
    pub fn fetch_max(&mut self, val: usize, _order: Ordering) -> (r: usize)
        ensures
            r == old(self)@,
            final(self)@ == if old(self)@ >= val {
                old(self)@
            } else {
                val
            },
    {
        let prev = self.v;
        if val > prev {
            self.v = val;
        }
        prev
    }

    /// Stores the smaller of the current value and `val`; returns the
    /// previous value.
    pub fn fetch_min(&mut self, val: usize, _order: Ordering) -> (r: usize)
        ensures
            r == old(self)@,
            final(self)@ == if old(self)@ <= val {
                old(self)@
            } else {
                val
            },
    {
        let prev = self.v;
        if val < prev {
            self.v = val;
        }
        prev
    }
}

impl From<usize> for AtomicUsize {
    fn from(val: usize) -> (r: Self)
        ensures
            r@ == val,
    {
        Self::new(val)
    }
}

impl vstd::std_specs::convert::FromSpecImpl<usize> for AtomicUsize {
    open spec fn obeys_from_spec() -> bool {
        true
    }

    closed spec fn from_spec(val: usize) -> Self {
        AtomicUsize { v: val }
    }
}

impl Default for AtomicUsize {
    fn default() -> (r: Self)
        ensures
            r@ == 0,
    {
        Self::new(0)
    }
}

/// An integer of type `i8` with the operations of an atomic integer.
///
/// Every [`Ordering`] argument is accepted and ignored: no operation here
/// races with another.
pub struct AtomicI8 {
    v: i8,
}

impl View for AtomicI8 {
    type V = i8;

    closed spec fn view(&self) -> i8 {
        self.v
    }
}

impl AtomicI8 {
    /// Creates a cell holding `val`.
    pub fn new(val: i8) -> (r: Self)
        ensures
            r@ == val,
    {
        AtomicI8 { v: val }
    }

    /// Returns a mutable reference to the stored integer.
    pub fn get_mut(&mut self) -> (r: &mut i8)
        ensures
            *r == old(self)@,
            final(self)@ == *final(r),
    {
        &mut self.v
    }

    /// Loads the current value.
    pub fn load(&self, _order: Ordering) -> (r: i8)
        ensures
            r == self@,
    {
        self.v
    }

    /// Stores `val`.
    pub fn store(&mut self, val: i8, _order: Ordering)
        ensures
            final(self)@ == val,
    {
        self.v = val;
    }

    /// Stores `val` and returns the value it replaced.
    pub fn swap(&mut self, val: i8, _order: Ordering) -> (r: i8)
        ensures
            r == old(self)@,
            final(self)@ == val,
    {
        let prev = self.v;
        self.v = val;
        prev
    }

    /// Stores `new` if the current value is `current`.
    ///
    /// Returns `Ok(previous)` when the value was replaced and `Err(previous)`
    /// when it was left alone.
    pub fn compare_exchange(
        &mut self,
        current: i8,
        new: i8,
        _success: Ordering,
        _failure: Ordering,
    ) -> (r: Result<i8, i8>)
        ensures
            old(self)@ == current ==> r == Ok::<i8, i8>(current) && final(self)@ == new,
            old(self)@ != current ==> r == Err::<i8, i8>(old(self)@) && final(self)@ == old(self)@,
    {
        let prev = self.v;
        if prev == current {
            self.v = new;
            Ok(prev)
        } else {
            Err(prev)
        }
    }

    /// Same as [`AtomicI8::compare_exchange`]: without rivals a weak exchange
    /// never fails spuriously.
    pub fn compare_exchange_weak(
        &mut self,
        current: i8,
        new: i8,
        success: Ordering,
        failure: Ordering,
    ) -> (r: Result<i8, i8>)
        ensures
            old(self)@ == current ==> r == Ok::<i8, i8>(current) && final(self)@ == new,
            old(self)@ != current ==> r == Err::<i8, i8>(old(self)@) && final(self)@ == old(self)@,
    {
        self.compare_exchange(current, new, success, failure)
    }

    /// Adds `val`, wrapping around at the bounds of `i8` as an atomic
    /// integer does; returns the previous value.
    pub fn fetch_add(&mut self, val: i8, _order: Ordering) -> (r: i8)
        ensures
            r == old(self)@,
            final(self)@ == vstd::wrapping::i8_specs::wrapping_add(old(self)@, val),
    {
        let prev = self.v;
        self.v = prev.wrapping_add(val);
        prev
    }

    /// Subtracts `val`, wrapping around at the bounds of `i8` as an atomic
    /// integer does; returns the previous value.
    pub fn fetch_sub(&mut self, val: i8, _order: Ordering) -> (r: i8)
        ensures
            r == old(self)@,
            final(self)@ == vstd::wrapping::i8_specs::wrapping_sub(old(self)@, val),
    {
        let prev = self.v;
        self.v = prev.wrapping_sub(val);
        prev
    }

    /// Bitwise "and" with `val`; returns the previous value.
    pub fn fetch_and(&mut self, val: i8, _order: Ordering) -> (r: i8)
        ensures
            r == old(self)@,
            final(self)@ == old(self)@ & val,
    {
        let prev = self.v;
        self.v = prev & val;
        prev
    }

    /// Bitwise "nand" with `val`; returns the previous value.
    pub fn fetch_nand(&mut self, val: i8, _order: Ordering) -> (r: i8)
        ensures
            r == old(self)@,
            final(self)@ == !(old(self)@ & val),
    {
        let prev = self.v;
        self.v = !(prev & val);
        prev
    }

    /// Bitwise "or" with `val`; returns the previous value.
    pub fn fetch_or(&mut self, val: i8, _order: Ordering) -> (r: i8)
        ensures
            r == old(self)@,
            final(self)@ == old(self)@ | val,
    {
        let prev = self.v;
        self.v = prev | val;
        prev
    }

    /// Bitwise "xor" with `val`; returns the previous value.
    pub fn fetch_xor(&mut self, val: i8, _order: Ordering) -> (r: i8)
        ensures
            r == old(self)@,
            final(self)@ == old(self)@ ^ val,
    {
        let prev = self.v;
        self.v = prev ^ val;
        prev
    }

    /// Stores the larger of the current value and `val`; returns the
    /// previous value.
    pub fn fetch_max(&mut self, val: i8, _order: Ordering) -> (r: i8)
        ensures
            r == old(self)@,
            final(self)@ == if old(self)@ >= val {
                old(self)@
            } else {
                val
            },
    {
        let prev = self.v;
        if val > prev {
            self.v = val;
        }
        prev
    }

    /// Stores the smaller of the current value and `val`; returns the
    /// previous value.
    pub fn fetch_min(&mut self, val: i8, _order: Ordering) -> (r: i8)
        ensures
            r == old(self)@,
            final(self)@ == if old(self)@ <= val {
                old(self)@
            } else {
                val
            },
    {
        let prev = self.v;
        if val < prev {
            self.v = val;
        }
        prev
    }
}

impl From<i8> for AtomicI8 {
    fn from(val: i8) -> (r: Self)
        ensures
            r@ == val,
    {
        Self::new(val)
    }
}

impl vstd::std_specs::convert::FromSpecImpl<i8> for AtomicI8 {
    open spec fn obeys_from_spec() -> bool {
        true
    }

    closed spec fn from_spec(val: i8) -> Self {
        AtomicI8 { v: val }
    }
}

impl Default for AtomicI8 {
    fn default() -> (r: Self)
        ensures
            r@ == 0,
    {
        Self::new(0)
    }
}

/// An integer of type `i16` with the operations of an atomic integer.
///
/// Every [`Ordering`] argument is accepted and ignored: no operation here
/// races with another.
pub struct AtomicI16 {
    v: i16,
}

impl View for AtomicI16 {
    type V = i16;

    closed spec fn view(&self) -> i16 {
        self.v
    }
}

impl AtomicI16 {
    /// Creates a cell holding `val`.
    pub fn new(val: i16) -> (r: Self)
        ensures
            r@ == val,
    {
        AtomicI16 { v: val }
    }

    /// Returns a mutable reference to the stored integer.
    pub fn get_mut(&mut self) -> (r: &mut i16)
        ensures
            *r == old(self)@,
            final(self)@ == *final(r),
    {
        &mut self.v
    }

    /// Loads the current value.
    pub fn load(&self, _order: Ordering) -> (r: i16)
        ensures
            r == self@,
    {
        self.v
    }

    /// Stores `val`.
    pub fn store(&mut self, val: i16, _order: Ordering)
        ensures
            final(self)@ == val,
    {
        self.v = val;
    }

    /// Stores `val` and returns the value it replaced.
    pub fn swap(&mut self, val: i16, _order: Ordering) -> (r: i16)
        ensures
            r == old(self)@,
            final(self)@ == val,
    {
        let prev = self.v;
        self.v = val;
        prev
    }

    /// Stores `new` if the current value is `current`.
    ///
    /// Returns `Ok(previous)` when the value was replaced and `Err(previous)`
    /// when it was left alone.
    pub fn compare_exchange(
        &mut self,
        current: i16,
        new: i16,
        _success: Ordering,
        _failure: Ordering,
    ) -> (r: Result<i16, i16>)
        ensures
            old(self)@ == current ==> r == Ok::<i16, i16>(current) && final(self)@ == new,
            old(self)@ != current ==> r == Err::<i16, i16>(old(self)@) && final(self)@ == old(self)@,
    {
        let prev = self.v;
        if prev == current {
            self.v = new;
            Ok(prev)
        } else {
            Err(prev)
        }
    }

    /// Same as [`AtomicI16::compare_exchange`]: without rivals a weak exchange
    /// never fails spuriously.
    pub fn compare_exchange_weak(
        &mut self,
        current: i16,
        new: i16,
        success: Ordering,
        failure: Ordering,
    ) -> (r: Result<i16, i16>)
        ensures
            old(self)@ == current ==> r == Ok::<i16, i16>(current) && final(self)@ == new,
            old(self)@ != current ==> r == Err::<i16, i16>(old(self)@) && final(self)@ == old(self)@,
    {
        self.compare_exchange(current, new, success, failure)
    }

    /// Adds `val`, wrapping around at the bounds of `i16` as an atomic
    /// integer does; returns the previous value.
    pub fn fetch_add(&mut self, val: i16, _order: Ordering) -> (r: i16)
        ensures
            r == old(self)@,
            final(self)@ == vstd::wrapping::i16_specs::wrapping_add(old(self)@, val),
    {
        let prev = self.v;
        self.v = prev.wrapping_add(val);
        prev
    }

    /// Subtracts `val`, wrapping around at the bounds of `i16` as an atomic
    /// integer does; returns the previous value.
    pub fn fetch_sub(&mut self, val: i16, _order: Ordering) -> (r: i16)
        ensures
            r == old(self)@,
            final(self)@ == vstd::wrapping::i16_specs::wrapping_sub(old(self)@, val),
    {
        let prev = self.v;
        self.v = prev.wrapping_sub(val);
        prev
    }

    /// Bitwise "and" with `val`; returns the previous value.
    pub fn fetch_and(&mut self, val: i16, _order: Ordering) -> (r: i16)
        ensures
            r == old(self)@,
            final(self)@ == old(self)@ & val,
    {
        let prev = self.v;
        self.v = prev & val;
        prev
    }

    /// Bitwise "nand" with `val`; returns the previous value.
    pub fn fetch_nand(&mut self, val: i16, _order: Ordering) -> (r: i16)
        ensures
            r == old(self)@,
            final(self)@ == !(old(self)@ & val),
    {
        let prev = self.v;
        self.v = !(prev & val);
        prev
    }

    /// Bitwise "or" with `val`; returns the previous value.
    pub fn fetch_or(&mut self, val: i16, _order: Ordering) -> (r: i16)
        ensures
            r == old(self)@,
            final(self)@ == old(self)@ | val,
    {
        let prev = self.v;
        self.v = prev | val;
        prev
    }

    /// Bitwise "xor" with `val`; returns the previous value.
    pub fn fetch_xor(&mut self, val: i16, _order: Ordering) -> (r: i16)
        ensures
            r == old(self)@,
            final(self)@ == old(self)@ ^ val,
    {
        let prev = self.v;
        self.v = prev ^ val;
        prev
    }

    /// Stores the larger of the current value and `val`; returns the
    /// previous value.
    pub fn fetch_max(&mut self, val: i16, _order: Ordering) -> (r: i16)
        ensures
            r == old(self)@,
            final(self)@ == if old(self)@ >= val {
                old(self)@
            } else {
                val
            },
    {
        let prev = self.v;
        if val > prev {
            self.v = val;
        }
        prev
    }

    /// Stores the smaller of the current value and `val`; returns the
    /// previous value.
    pub fn fetch_min(&mut self, val: i16, _order: Ordering) -> (r: i16)
        ensures
            r == old(self)@,
            final(self)@ == if old(self)@ <= val {
                old(self)@
            } else {
                val
            },
    {
        let prev = self.v;
        if val < prev {
            self.v = val;
        }
        prev
    }
}

impl From<i16> for AtomicI16 {
    fn from(val: i16) -> (r: Self)
        ensures
            r@ == val,
    {
        Self::new(val)
    }
}

impl vstd::std_specs::convert::FromSpecImpl<i16> for AtomicI16 {
    open spec fn obeys_from_spec() -> bool {
        true
    }

    closed spec fn from_spec(val: i16) -> Self {
        AtomicI16 { v: val }
    }
}

impl Default for AtomicI16 {
    fn default() -> (r: Self)
        ensures
            r@ == 0,
    {
        Self::new(0)
    }
}

/// An integer of type `i32` with the operations of an atomic integer.
///
/// Every [`Ordering`] argument is accepted and ignored: no operation here
/// races with another.
pub struct AtomicI32 {
    v: i32,
}

impl View for AtomicI32 {
    type V = i32;

    closed spec fn view(&self) -> i32 {
        self.v
    }
}

impl AtomicI32 {
    /// Creates a cell holding `val`.
    pub fn new(val: i32) -> (r: Self)
        ensures
            r@ == val,
    {
        AtomicI32 { v: val }
    }

    /// Returns a mutable reference to the stored integer.
    pub fn get_mut(&mut self) -> (r: &mut i32)
        ensures
            *r == old(self)@,
            final(self)@ == *final(r),
    {
        &mut self.v
    }

    /// Loads the current value.
    pub fn load(&self, _order: Ordering) -> (r: i32)
        ensures
            r == self@,
    {
        self.v
    }

    /// Stores `val`.
    pub fn store(&mut self, val: i32, _order: Ordering)
        ensures
            final(self)@ == val,
    {
        self.v = val;
    }

    /// Stores `val` and returns the value it replaced.
    pub fn swap(&mut self, val: i32, _order: Ordering) -> (r: i32)
        ensures
            r == old(self)@,
            final(self)@ == val,
    {
        let prev = self.v;
        self.v = val;
        prev
    }

    /// Stores `new` if the current value is `current`.
    ///
    /// Returns `Ok(previous)` when the value was replaced and `Err(previous)`
    /// when it was left alone.
    pub fn compare_exchange(
        &mut self,
        current: i32,
        new: i32,
        _success: Ordering,
        _failure: Ordering,
    ) -> (r: Result<i32, i32>)
        ensures
            old(self)@ == current ==> r == Ok::<i32, i32>(current) && final(self)@ == new,
            old(self)@ != current ==> r == Err::<i32, i32>(old(self)@) && final(self)@ == old(self)@,
    {
        let prev = self.v;
        if prev == current {
            self.v = new;
            Ok(prev)
        } else {
            Err(prev)
        }
    }

    /// Same as [`AtomicI32::compare_exchange`]: without rivals a weak exchange
    /// never fails spuriously.
    pub fn compare_exchange_weak(
        &mut self,
        current: i32,
        new: i32,
        success: Ordering,
        failure: Ordering,
    ) -> (r: Result<i32, i32>)
        ensures
            old(self)@ == current ==> r == Ok::<i32, i32>(current) && final(self)@ == new,
            old(self)@ != current ==> r == Err::<i32, i32>(old(self)@) && final(self)@ == old(self)@,
    {
        self.compare_exchange(current, new, success, failure)
    }

    /// Adds `val`, wrapping around at the bounds of `i32` as an atomic
    /// integer does; returns the previous value.
    pub fn fetch_add(&mut self, val: i32, _order: Ordering) -> (r: i32)
        ensures
            r == old(self)@,
            final(self)@ == vstd::wrapping::i32_specs::wrapping_add(old(self)@, val),
    {
        let prev = self.v;
        self.v = prev.wrapping_add(val);
        prev
    }

    /// Subtracts `val`, wrapping around at the bounds of `i32` as an atomic
    /// integer does; returns the previous value.
    pub fn fetch_sub(&mut self, val: i32, _order: Ordering) -> (r: i32)
        ensures
            r == old(self)@,
            final(self)@ == vstd::wrapping::i32_specs::wrapping_sub(old(self)@, val),
    {
        let prev = self.v;
        self.v = prev.wrapping_sub(val);
        prev
    }

    /// Bitwise "and" with `val`; returns the previous value.
    pub fn fetch_and(&mut self, val: i32, _order: Ordering) -> (r: i32)
        ensures
            r == old(self)@,
            final(self)@ == old(self)@ & val,
    {
        let prev = self.v;
        self.v = prev & val;
        prev
    }

    /// Bitwise "nand" with `val`; returns the previous value.
    pub fn fetch_nand(&mut self, val: i32, _order: Ordering) -> (r: i32)
        ensures
            r == old(self)@,
            final(self)@ == !(old(self)@ & val),
    {
        let prev = self.v;
        self.v = !(prev & val);
        prev
    }

    /// Bitwise "or" with `val`; returns the previous value.
    pub fn fetch_or(&mut self, val: i32, _order: Ordering) -> (r: i32)
        ensures
            r == old(self)@,
            final(self)@ == old(self)@ | val,
    {
        let prev = self.v;
        self.v = prev | val;
        prev
    }

    /// Bitwise "xor" with `val`; returns the previous value.
    pub fn fetch_xor(&mut self, val: i32, _order: Ordering) -> (r: i32)
        ensures
            r == old(self)@,
            final(self)@ == old(self)@ ^ val,
    {
        let prev = self.v;
        self.v = prev ^ val;
        prev
    }

    /// Stores the larger of the current value and `val`; returns the
    /// previous value.
    pub fn fetch_max(&mut self, val: i32, _order: Ordering) -> (r: i32)
        ensures
            r == old(self)@,
            final(self)@ == if old(self)@ >= val {
                old(self)@
            } else {
                val
            },
    {
        let prev = self.v;
        if val > prev {
            self.v = val;
        }
        prev
    }

    /// Stores the smaller of the current value and `val`; returns the
    /// previous value.
    pub fn fetch_min(&mut self, val: i32, _order: Ordering) -> (r: i32)
        ensures
            r == old(self)@,
            final(self)@ == if old(self)@ <= val {
                old(self)@
            } else {
                val
            },
    {
        let prev = self.v;
        if val < prev {
            self.v = val;
        }
        prev
    }
}

impl From<i32> for AtomicI32 {
    fn from(val: i32) -> (r: Self)
        ensures
            r@ == val,
    {
        Self::new(val)
    }
}

impl vstd::std_specs::convert::FromSpecImpl<i32> for AtomicI32 {
    open spec fn obeys_from_spec() -> bool {
        true
    }

    closed spec fn from_spec(val: i32) -> Self {
        AtomicI32 { v: val }
    }
}

impl Default for AtomicI32 {
    fn default() -> (r: Self)
        ensures
            r@ == 0,
    {
        Self::new(0)
    }
}

/// An integer of type `i64` with the operations of an atomic integer.
///
/// Every [`Ordering`] argument is accepted and ignored: no operation here
/// races with another.
pub struct AtomicI64 {
    v: i64,
}

impl View for AtomicI64 {
    type V = i64;

    closed spec fn view(&self) -> i64 {
        self.v
    }
}

impl AtomicI64 {
    /// Creates a cell holding `val`.
    pub fn new(val: i64) -> (r: Self)
        ensures
            r@ == val,
    {
        AtomicI64 { v: val }
    }

    /// Returns a mutable reference to the stored integer.
    pub fn get_mut(&mut self) -> (r: &mut i64)
        ensures
            *r == old(self)@,
            final(self)@ == *final(r),
    {
        &mut self.v
    }

    /// Loads the current value.
    pub fn load(&self, _order: Ordering) -> (r: i64)
        ensures
            r == self@,
    {
        self.v
    }

    /// Stores `val`.
    pub fn store(&mut self, val: i64, _order: Ordering)
        ensures
            final(self)@ == val,
    {
        self.v = val;
    }

    /// Stores `val` and returns the value it replaced.
    pub fn swap(&mut self, val: i64, _order: Ordering) -> (r: i64)
        ensures
            r == old(self)@,
            final(self)@ == val,
    {
        let prev = self.v;
        self.v = val;
        prev
    }

    /// Stores `new` if the current value is `current`.
    ///
    /// Returns `Ok(previous)` when the value was replaced and `Err(previous)`
    /// when it was left alone.
    pub fn compare_exchange(
        &mut self,
        current: i64,
        new: i64,
        _success: Ordering,
        _failure: Ordering,
    ) -> (r: Result<i64, i64>)
        ensures
            old(self)@ == current ==> r == Ok::<i64, i64>(current) && final(self)@ == new,
            old(self)@ != current ==> r == Err::<i64, i64>(old(self)@) && final(self)@ == old(self)@,
    {
        let prev = self.v;
        if prev == current {
            self.v = new;
            Ok(prev)
        } else {
            Err(prev)
        }
    }

    /// Same as [`AtomicI64::compare_exchange`]: without rivals a weak exchange
    /// never fails spuriously.
    pub fn compare_exchange_weak(
        &mut self,
        current: i64,
        new: i64,
        success: Ordering,
        failure: Ordering,
    ) -> (r: Result<i64, i64>)
        ensures
            old(self)@ == current ==> r == Ok::<i64, i64>(current) && final(self)@ == new,
            old(self)@ != current ==> r == Err::<i64, i64>(old(self)@) && final(self)@ == old(self)@,
    {
        self.compare_exchange(current, new, success, failure)
    }

    /// Adds `val`, wrapping around at the bounds of `i64` as an atomic
    /// integer does; returns the previous value.
    pub fn fetch_add(&mut self, val: i64, _order: Ordering) -> (r: i64)
        ensures
            r == old(self)@,
            final(self)@ == vstd::wrapping::i64_specs::wrapping_add(old(self)@, val),
    {
        let prev = self.v;
        self.v = prev.wrapping_add(val);
        prev
    }

    /// Subtracts `val`, wrapping around at the bounds of `i64` as an atomic
    /// integer does; returns the previous value.
    pub fn fetch_sub(&mut self, val: i64, _order: Ordering) -> (r: i64)
        ensures
            r == old(self)@,
            final(self)@ == vstd::wrapping::i64_specs::wrapping_sub(old(self)@, val),
    {
        let prev = self.v;
        self.v = prev.wrapping_sub(val);
        prev
    }

    /// Bitwise "and" with `val`; returns the previous value.
    pub fn fetch_and(&mut self, val: i64, _order: Ordering) -> (r: i64)
        ensures
            r == old(self)@,
            final(self)@ == old(self)@ & val,
    {
        let prev = self.v;
        self.v = prev & val;
        prev
    }

    /// Bitwise "nand" with `val`; returns the previous value.
    pub fn fetch_nand(&mut self, val: i64, _order: Ordering) -> (r: i64)
        ensures
            r == old(self)@,
            final(self)@ == !(old(self)@ & val),
    {
        let prev = self.v;
        self.v = !(prev & val);
        prev
    }

    /// Bitwise "or" with `val`; returns the previous value.
    pub fn fetch_or(&mut self, val: i64, _order: Ordering) -> (r: i64)
        ensures
            r == old(self)@,
            final(self)@ == old(self)@ | val,
    {
        let prev = self.v;
        self.v = prev | val;
        prev
    }

    /// Bitwise "xor" with `val`; returns the previous value.
    pub fn fetch_xor(&mut self, val: i64, _order: Ordering) -> (r: i64)
        ensures
            r == old(self)@,
            final(self)@ == old(self)@ ^ val,
    {
        let prev = self.v;
        self.v = prev ^ val;
        prev
    }

    /// Stores the larger of the current value and `val`; returns the
    /// previous value.
    pub fn fetch_max(&mut self, val: i64, _order: Ordering) -> (r: i64)
        ensures
            r == old(self)@,
            final(self)@ == if old(self)@ >= val {
                old(self)@
            } else {
                val
            },
    {
        let prev = self.v;
        if val > prev {
            self.v = val;
        }
        prev
    }

    /// Stores the smaller of the current value and `val`; returns the
    /// previous value.
    pub fn fetch_min(&mut self, val: i64, _order: Ordering) -> (r: i64)
        ensures
            r == old(self)@,
            final(self)@ == if old(self)@ <= val {
                old(self)@
            } else {
                val
            },
    {
        let prev = self.v;
        if val < prev {
            self.v = val;
        }
        prev
    }
}

impl From<i64> for AtomicI64 {
    fn from(val: i64) -> (r: Self)
        ensures
            r@ == val,
    {
        Self::new(val)
    }
}

impl vstd::std_specs::convert::FromSpecImpl<i64> for AtomicI64 {
    open spec fn obeys_from_spec() -> bool {
        true
    }

    closed spec fn from_spec(val: i64) -> Self {
        AtomicI64 { v: val }
    }
}

impl Default for AtomicI64 {
    fn default() -> (r: Self)
        ensures
            r@ == 0,
    {
        Self::new(0)
    }
}

/// An integer of type `isize` with the operations of an atomic integer.
///
/// Every [`Ordering`] argument is accepted and ignored: no operation here
/// races with another.
pub struct AtomicIsize {
    v: isize,
}

impl View for AtomicIsize {
    type V = isize;

    closed spec fn view(&self) -> isize {
        self.v
    }
}

impl AtomicIsize {
    /// Creates a cell holding `val`.
    pub fn new(val: isize) -> (r: Self)
        ensures
            r@ == val,
    {
        AtomicIsize { v: val }
    }

    /// Returns a mutable reference to the stored integer.
    pub fn get_mut(&mut self) -> (r: &mut isize)
        ensures
            *r == old(self)@,
            final(self)@ == *final(r),
    {
        &mut self.v
    }

    /// Loads the current value.
    pub fn load(&self, _order: Ordering) -> (r: isize)
        ensures
            r == self@,
    {
        self.v
    }

    /// Stores `val`.
    pub fn store(&mut self, val: isize, _order: Ordering)
        ensures
            final(self)@ == val,
    {
        self.v = val;
    }

    /// Stores `val` and returns the value it replaced.
    pub fn swap(&mut self, val: isize, _order: Ordering) -> (r: isize)
        ensures
            r == old(self)@,
            final(self)@ == val,
    {
        let prev = self.v;
        self.v = val;
        prev
    }

    /// Stores `new` if the current value is `current`.
    ///
    /// Returns `Ok(previous)` when the value was replaced and `Err(previous)`
    /// when it was left alone.
    pub fn compare_exchange(
        &mut self,
        current: isize,
        new: isize,
        _success: Ordering,
        _failure: Ordering,
    ) -> (r: Result<isize, isize>)
        ensures
            old(self)@ == current ==> r == Ok::<isize, isize>(current) && final(self)@ == new,
            old(self)@ != current ==> r == Err::<isize, isize>(old(self)@) && final(self)@ == old(self)@,
    {
        let prev = self.v;
        if prev == current {
            self.v = new;
            Ok(prev)
        } else {
            Err(prev)
        }
    }

    /// Same as [`AtomicIsize::compare_exchange`]: without rivals a weak exchange
    /// never fails spuriously.
    pub fn compare_exchange_weak(
        &mut self,
        current: isize,
        new: isize,
        success: Ordering,
        failure: Ordering,
    ) -> (r: Result<isize, isize>)
        ensures
            old(self)@ == current ==> r == Ok::<isize, isize>(current) && final(self)@ == new,
            old(self)@ != current ==> r == Err::<isize, isize>(old(self)@) && final(self)@ == old(self)@,
    {
        self.compare_exchange(current, new, success, failure)
    }

    /// Adds `val`, wrapping around at the bounds of `isize` as an atomic
    /// integer does; returns the previous value.
    pub fn fetch_add(&mut self, val: isize, _order: Ordering) -> (r: isize)
        ensures
            r == old(self)@,
            final(self)@ == vstd::wrapping::isize_specs::wrapping_add(old(self)@, val),
    {
        let prev = self.v;
        self.v = prev.wrapping_add(val);
        prev
    }

    /// Subtracts `val`, wrapping around at the bounds of `isize` as an atomic
    /// integer does; returns the previous value.
    pub fn fetch_sub(&mut self, val: isize, _order: Ordering) -> (r: isize)
        ensures
            r == old(self)@,
            final(self)@ == vstd::wrapping::isize_specs::wrapping_sub(old(self)@, val),
    {
        let prev = self.v;
        self.v = prev.wrapping_sub(val);
        prev
    }

    /// Bitwise "and" with `val`; returns the previous value.
    pub fn fetch_and(&mut self, val: isize, _order: Ordering) -> (r: isize)
        ensures
            r == old(self)@,
            final(self)@ == old(self)@ & val,
    {
        let prev = self.v;
        self.v = prev & val;
        prev
    }

    /// Bitwise "nand" with `val`; returns the previous value.
    pub fn fetch_nand(&mut self, val: isize, _order: Ordering) -> (r: isize)
        ensures
            r == old(self)@,
            final(self)@ == !(old(self)@ & val),
    {
        let prev = self.v;
        self.v = !(prev & val);
        prev
    }

    /// Bitwise "or" with `val`; returns the previous value.
    pub fn fetch_or(&mut self, val: isize, _order: Ordering) -> (r: isize)
        ensures
            r == old(self)@,
            final(self)@ == old(self)@ | val,
    {
        let prev = self.v;
        self.v = prev | val;
        prev
    }

    /// Bitwise "xor" with `val`; returns the previous value.
    pub fn fetch_xor(&mut self, val: isize, _order: Ordering) -> (r: isize)
        ensures
            r == old(self)@,
            final(self)@ == old(self)@ ^ val,
    {
        let prev = self.v;
        self.v = prev ^ val;
        prev
    }

    /// Stores the larger of the current value and `val`; returns the
    /// previous value.
    pub fn fetch_max(&mut self, val: isize, _order: Ordering) -> (r: isize)
        ensures
            r == old(self)@,
            final(self)@ == if old(self)@ >= val {
                old(self)@
            } else {
                val
            },
    {
        let prev = self.v;
        if val > prev {
            self.v = val;
        }
        prev
    }

    /// Stores the smaller of the current value and `val`; returns the
    /// previous value.
    pub fn fetch_min(&mut self, val: isize, _order: Ordering) -> (r: isize)
        ensures
            r == old(self)@,
            final(self)@ == if old(self)@ <= val {
                old(self)@
            } else {
                val
            },
    {
        let prev = self.v;
        if val < prev {
            self.v = val;
        }
        prev
    }
}

impl From<isize> for AtomicIsize {
    fn from(val: isize) -> (r: Self)
        ensures
            r@ == val,
    {
        Self::new(val)
    }
}

impl vstd::std_specs::convert::FromSpecImpl<isize> for AtomicIsize {
    open spec fn obeys_from_spec() -> bool {
        true
    }

    closed spec fn from_spec(val: isize) -> Self {
        AtomicIsize { v: val }
    }
}

impl Default for AtomicIsize {
    fn default() -> (r: Self)
        ensures
            r@ == 0,
    {
        Self::new(0)
    }
}

} // verus!
