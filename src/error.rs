use vstd::prelude::*;
use vstd::string::*;

verus! {

/// The ways a load can fail.
#[derive(Debug, PartialEq, Eq)]
pub enum DataLoaderError {
    /// A waiter's delivery channel was torn down before its result came.
    ChannelClosed,
    /// The fetch reported a failure for the key, or failed as a whole.
    BatchError(String),
    /// The key was dispatched but the fetch result did not mention it.
    KeyNotFound,
    /// Reserved for a deadline wrapper around loads.
    Timeout,
}

/// The text a failure is shown with.
pub open spec fn error_message(e: DataLoaderError) -> Seq<char> {
    match e {
        DataLoaderError::ChannelClosed => "Channel closed while waiting for batch result"@,
        DataLoaderError::BatchError(msg) => "Batch load error: "@ + msg@,
        DataLoaderError::KeyNotFound => "Key not found in batch results"@,
        DataLoaderError::Timeout => "Timeout waiting for batch"@,
    }
}

impl DataLoaderError {
    /// The human-readable text of the failure.
    pub fn message(&self) -> (r: String)
        ensures
            r@ == error_message(*self),
    {
        match self {
            DataLoaderError::ChannelClosed => {
                String::from_str("Channel closed while waiting for batch result")
            },
            DataLoaderError::BatchError(msg) => {
                let mut s = String::from_str("Batch load error: ");
                s.append(msg.as_str());
                s
            },
            DataLoaderError::KeyNotFound => String::from_str("Key not found in batch results"),
            DataLoaderError::Timeout => String::from_str("Timeout waiting for batch"),
        }
    }
}

impl Clone for DataLoaderError {
    fn clone(&self) -> (r: DataLoaderError)
        ensures
            r == *self,
    {
        match self {
            DataLoaderError::ChannelClosed => DataLoaderError::ChannelClosed,
            DataLoaderError::BatchError(msg) => DataLoaderError::BatchError(msg.clone()),
            DataLoaderError::KeyNotFound => DataLoaderError::KeyNotFound,
            DataLoaderError::Timeout => DataLoaderError::Timeout,
        }
    }
}

impl From<String> for DataLoaderError {
    fn from(err: String) -> (r: DataLoaderError) {
        DataLoaderError::BatchError(err)
    }
}

impl vstd::std_specs::convert::FromSpecImpl<String> for DataLoaderError {
    open spec fn obeys_from_spec() -> bool {
        true
    }

    open spec fn from_spec(err: String) -> DataLoaderError {
        DataLoaderError::BatchError(err)
    }
}

} // verus!
