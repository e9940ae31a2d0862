pub mod dxgi;
