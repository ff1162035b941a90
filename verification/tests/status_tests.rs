use server_booter::status::ServerStatus;

#[test]
fn labels_are_exact() {
    assert_eq!(ServerStatus::Offline.as_str(), "Offline");
    assert_eq!(ServerStatus::StartingEC2.as_str(), "StartingEC2");
    assert_eq!(ServerStatus::StartingUp.as_str(), "StartingUp");
    assert_eq!(ServerStatus::Online.as_str(), "Online");
    assert_eq!(ServerStatus::ShuttingDown.as_str(), "ShuttingDown");
    assert_eq!(ServerStatus::Unknown.as_str(), "Unknown");
}

#[test]
fn motds_are_exact() {
    assert_eq!(
        ServerStatus::Offline.get_motd(),
        "&4Offline &f&o(join to start server up)"
    );
    assert_eq!(ServerStatus::StartingEC2.get_motd(), "&6Starting EC2 instance...");
    assert_eq!(
        ServerStatus::StartingUp.get_motd(),
        "&6Starting minecraft server..."
    );
    assert_eq!(ServerStatus::Online.get_motd(), "&2Online");
    assert_eq!(ServerStatus::ShuttingDown.get_motd(), "&cShutting down...");
    assert_eq!(ServerStatus::Unknown.get_motd(), "Unknown");
}
