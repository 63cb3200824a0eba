// A fixed-size pool of workers that drain a shared queue of jobs: the queue
// with its open/closed state, the pool's lifecycle and teardown, and the
// request routing and response framing of the small server built on it.
pub mod channel;
pub mod http;
pub mod pool;
