pub mod openai_response_adapter;
pub mod openai_stream_adapter;
pub mod request_adapter;
pub mod response_adapter;
