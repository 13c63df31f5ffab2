use vstd::prelude::*;

verus! {

/// The immutable startup configuration the server runs under. The endpoint
/// name itself stays with the channel adapter; what the verified logic needs
/// is here, injected rather than global.
pub struct ServerConfig {
    /// The local directory that holds the peer application's saves.
    pub save_dir: Vec<u8>,
    /// The path separator the platform wants between directory and file name.
    pub path_sep: u8,
    /// The fixed size of the single read buffer; longer messages are truncated.
    pub buffer_size: usize,
    /// How many times to poll for a peer before the accept window closes.
    pub max_accept_attempts: u32,
}

/// The mathematical shadow of `ServerConfig`.
pub struct ServerConfigView {
    pub save_dir: Seq<u8>,
    pub path_sep: u8,
    pub buffer_size: usize,
    pub max_accept_attempts: u32,
}

impl View for ServerConfig {
    type V = ServerConfigView;

    open spec fn view(&self) -> ServerConfigView {
        ServerConfigView {
            save_dir: self.save_dir@,
            path_sep: self.path_sep,
            buffer_size: self.buffer_size,
            max_accept_attempts: self.max_accept_attempts,
        }
    }
}

impl ServerConfigView {
    /// A usable configuration: the accept window and the read buffer are not
    /// empty.
    pub open spec fn wf(self) -> bool {
        self.max_accept_attempts > 0 && self.buffer_size > 0
    }
}

impl ServerConfig {
    /// Builds a configuration.
    pub fn new(save_dir: Vec<u8>, path_sep: u8, buffer_size: usize, max_accept_attempts: u32) -> (c:
        ServerConfig)
        requires
            buffer_size > 0,
            max_accept_attempts > 0,
        ensures
            c@ == (ServerConfigView {
                save_dir: save_dir@,
                path_sep,
                buffer_size,
                max_accept_attempts,
            }),
            c@.wf(),
    {
        ServerConfig { save_dir, path_sep, buffer_size, max_accept_attempts }
    }
}

} // verus!
