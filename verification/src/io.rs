pub mod cursor;
pub mod endian;
pub mod error;
pub mod reader;
pub mod seek;
pub mod writer;

pub use cursor::Cursor;
pub use error::{IoError, IoErrorKind, IoResult};
pub use reader::{BufferedReader, MediaRead, ReadPrimitives, DEFAULT_BUFFER_SIZE};
pub use seek::{MediaSeek, SeekFrom, SeekableReader, SeekableWriter};
pub use writer::{BufferedWriter, MediaWrite, WritePrimitives};
