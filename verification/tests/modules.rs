use basics::client;
use basics::network;

#[test]
fn it_works() {
    client::connect();
}

#[test]
fn every_module_path_connects() {
    network::connect();
    network::client::connect();
    network::server::connect();
}
