pub mod handle_weebcentral;
