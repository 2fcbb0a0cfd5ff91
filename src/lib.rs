//! Registered socket I/O resource management: a sub-allocator over one
//! registered memory region, completion-queue slot accounting, request-queue
//! reservation and submission bookkeeping, and a per-connection stream that
//! allows at most one outstanding operation per direction.
//!
//! Kernel calls stay with the caller; every decision taken before or after
//! such a call is made here and verified. The HTTP modules hold the request,
//! URI and response text handling of the server built on top.

mod error;

pub mod buffer;
pub mod comp_queue;
pub mod event;
pub mod iocp;
pub mod request_queue;
pub mod socket;
pub mod stream;
pub mod traits;

pub mod method;
pub mod request;
pub mod response;
pub mod server;
pub mod text;
pub mod uri;
pub mod utils;

pub use buffer::{BufferNode, RIOBuffer, RIOBufferSlice, Usage};
pub use comp_queue::{Completion, RIOCompletionQueue, WaitAction};
pub use error::RioError;
pub use event::{IOAlias, RIOEvent, RIOPoll, SocketAlias};
pub use iocp::{IOCPPoll, IOCP};
pub use method::Method;
pub use request_queue::{RIOIoOP, RequestQueue, BUFFERS_PER_OPERATION};
pub use socket::{AddrsFamily, Direction, FivSocket, LLProtocol, NAMEME1};
pub use stream::{ConnectAttempts, RegisteredTcpStream};
pub use traits::{AsyncIO, NetConvError, Protocol, Reset, Security, TryFromSock, Wait, WinStream};
