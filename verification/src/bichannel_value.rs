//! A value for each of the two axes.

use crate::channels::SingleChannel;
use vstd::prelude::*;

verus! {

/// A pair of values, one per axis.
#[derive(Copy, Clone, Debug)]
pub struct BiChannelValue<T> {
    pub channel1: T,
    pub channel2: T,
}

impl<T> BiChannelValue<T> {
    /// The value held for `channel`.
    pub open spec fn value(self, channel: SingleChannel) -> T {
        match channel {
            SingleChannel::Channel1 => self.channel1,
            SingleChannel::Channel2 => self.channel2,
        }
    }

    /// The pair that holds `channel1` for the first axis and `channel2` for
    /// the second.
    pub fn new(channel1: T, channel2: T) -> (pair: BiChannelValue<T>)
        ensures
            pair.value(SingleChannel::Channel1) == channel1,
            pair.value(SingleChannel::Channel2) == channel2,
    {
        BiChannelValue { channel1, channel2 }
    }

    /// The pair of what `f` gives for each axis, the first axis first.
    pub fn new_from_fn<F>(mut f: F) -> (pair: BiChannelValue<T>) where
        F: FnMut(SingleChannel) -> T,

        requires
            call_requires(f, (SingleChannel::Channel1,)),
            call_requires(f, (SingleChannel::Channel2,)),
        ensures
            call_ensures(f, (SingleChannel::Channel1,), pair.value(SingleChannel::Channel1)),
            call_ensures(f, (SingleChannel::Channel2,), pair.value(SingleChannel::Channel2)),
    {
        let channel1 = f(SingleChannel::Channel1);
        let channel2 = f(SingleChannel::Channel2);
        BiChannelValue::new(channel1, channel2)
    }

    /// The pair of what `f` gives for each axis, or the first error that `f`
    /// gives. After an error for the first axis, `f` is not called for the
    /// second.
    pub fn new_from_result_fn<F, E>(mut f: F) -> (r: Result<BiChannelValue<T>, E>) where
        F: FnMut(SingleChannel) -> Result<T, E>,

        requires
            call_requires(f, (SingleChannel::Channel1,)),
            call_requires(f, (SingleChannel::Channel2,)),
        ensures
            match r {
                Ok(pair) => {
                    &&& call_ensures(f, (SingleChannel::Channel1,), Ok(pair.channel1))
                    &&& call_ensures(f, (SingleChannel::Channel2,), Ok(pair.channel2))
                },
                Err(e) => {
                    ||| call_ensures(f, (SingleChannel::Channel1,), Err(e))
                    ||| exists|first: T|
                        {
                            &&& call_ensures(f, (SingleChannel::Channel1,), Ok(first))
                            &&& call_ensures(f, (SingleChannel::Channel2,), Err(e))
                        }
                },
            },
    {
        let channel1 = f(SingleChannel::Channel1)?;
        let channel2 = f(SingleChannel::Channel2)?;
        Ok(BiChannelValue::new(channel1, channel2))
    }
}

impl<T> std::ops::Index<SingleChannel> for BiChannelValue<T> {
    type Output = T;

    fn index(&self, channel: SingleChannel) -> (value: &T)
        ensures
            *value == self.value(channel),
    {
        match channel {
            SingleChannel::Channel1 => &self.channel1,
            SingleChannel::Channel2 => &self.channel2,
        }
    }
}

impl<T> vstd::std_specs::core::IndexSpecImpl<SingleChannel> for BiChannelValue<T> {
    open spec fn index_req(&self, index: &SingleChannel) -> bool {
        true
    }
}

} // verus!
