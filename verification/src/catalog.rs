//! The service catalog: an immutable mapping from well-known TCP port number
//! to a human-readable service label.
//!
//! Lookup is total and pure: every port maps to exactly one label, and a port
//! with no entry maps to the sentinel `"Unknown"`. Informal usage associates
//! several service names with some ports (for instance 3478, 5222, 8080, or
//! 27015); this table pins each such port to a single label, chosen once when
//! the table was curated, so that the mapping is deterministic.

use vstd::prelude::*;

verus! {

/// The label the catalog assigns to `port`: the mathematical definition of
/// the table, one label per port, `"Unknown"` for every port without an entry.
pub open spec fn service_label(port: u16) -> Seq<char> {
    match port {
        1 => "TCPMUX"@,
        7 => "ECHO"@,
        9 => "DISCARD"@,
        13 => "DAYTIME"@,
        17 => "QOTD"@,
        19 => "CHARGEN"@,
        20 => "FTP-DATA"@,
        21 => "FTP"@,
        22 => "SSH"@,
        23 => "TELNET"@,
        25 => "SMTP"@,
        26 => "RSFTP"@,
        37 => "TIME"@,
        49 => "TACACS"@,
        53 => "DNS"@,
        67 => "DHCP-SERVER"@,
        68 => "DHCP-CLIENT"@,
        69 => "TFTP"@,
        79 => "FINGER"@,
        80 => "HTTP"@,
        81 => "TOR"@,
        88 => "KERBEROS"@,
        102 => "S7COMM"@,
        110 => "POP3"@,
        111 => "RPCBIND"@,
        119 => "NNTP"@,
        123 => "NTP"@,
        135 => "MSRPC"@,
        137 => "NETBIOS-NS"@,
        138 => "NETBIOS-DGM"@,
        139 => "NETBIOS-SSN"@,
        143 => "IMAP"@,
        161 => "SNMP"@,
        162 => "SNMP-TRAP"@,
        179 => "BGP"@,
        389 => "LDAP"@,
        443 => "HTTPS"@,
        445 => "MICROSOFT-DS"@,
        465 => "SMTPS"@,
        500 => "ISAKMP"@,
        502 => "MODBUS"@,
        513 => "RLOGIN"@,
        514 => "SYSLOG"@,
        515 => "LPD"@,
        520 => "RIP"@,
        523 => "IBM-DB2"@,
        548 => "AFP"@,
        554 => "RTSP"@,
        587 => "SUBMISSION"@,
        631 => "IPP"@,
        636 => "LDAPS"@,
        873 => "RSYNC"@,
        989 => "FTPS-DATA"@,
        990 => "FTPS"@,
        993 => "IMAPS"@,
        995 => "POP3S"@,
        1089 => "FF-ANNUNC"@,
        1090 => "FF-FIELDBUS"@,
        1091 => "FF-SYSTEM"@,
        1241 => "NESSUS-OLD"@,
        1433 => "MSSQL"@,
        1434 => "MSSQL-UDP"@,
        1521 => "ORACLE"@,
        1527 => "ORACLE-XE"@,
        1755 => "MMS"@,
        1880 => "NODE-RED"@,
        1883 => "MQTT"@,
        1900 => "UPNP"@,
        1935 => "RTMP"@,
        2049 => "AWS-EFS"@,
        2222 => "EtherCAT"@,
        2375 => "DOCKER"@,
        2376 => "DOCKER-SSL"@,
        2377 => "DOCKER-SWARM"@,
        3000 => "NODE"@,
        3074 => "XBOX-LIVE"@,
        3075 => "XBOX-LIVE-2"@,
        3076 => "XBOX-LIVE-3"@,
        3306 => "MYSQL"@,
        3389 => "AWS-WORKSPACES"@,
        3478 => "PLAYSTATION-NETWORK"@,
        3479 => "PLAYSTATION-NETWORK-2"@,
        3480 => "PLAYSTATION-NETWORK-3"@,
        3724 => "WORLD-OF-WARCRAFT"@,
        4200 => "ANGULAR"@,
        4243 => "DOCKER-API"@,
        4444 => "METASPLOIT"@,
        5060 => "SIP"@,
        5061 => "SIPS"@,
        5222 => "LEAGUE-OF-LEGENDS"@,
        5223 => "LEAGUE-OF-LEGENDS-2"@,
        5228 => "GOOGLE-TALK"@,
        5242 => "WHATSAPP"@,
        5243 => "WHATSAPP-VOICE"@,
        5353 => "MDNS"@,
        5432 => "POSTGRESQL"@,
        5439 => "AWS-REDSHIFT"@,
        5984 => "COUCHDB"@,
        6112 => "BATTLE.NET"@,
        6113 => "BATTLE.NET-2"@,
        6114 => "BATTLE.NET-3"@,
        6379 => "REDIS"@,
        6443 => "KUBERNETES-API"@,
        6970 => "QUICKTIME"@,
        7070 => "REALSERVER"@,
        7474 => "NEO4J"@,
        7687 => "NEO4J-BOLT"@,
        8000 => "DJANGO"@,
        8080 => "JENKINS"@,
        8086 => "INFLUXDB"@,
        8088 => "ICECAST"@,
        8090 => "SPOTIFY"@,
        8091 => "SPOTIFY-WEB"@,
        8092 => "SPOTIFY-CONNECT"@,
        8123 => "HOME-ASSISTANT"@,
        8443 => "JENKINS-SSL"@,
        8529 => "ARANGODB"@,
        8554 => "RTSP-CAMERAS-ALT"@,
        8834 => "NESSUS"@,
        8883 => "MQTT-SSL"@,
        9000 => "SONARQUBE"@,
        9042 => "CASSANDRA"@,
        9090 => "PROMETHEUS"@,
        9091 => "PROMETHEUS-PUSHGATEWAY"@,
        9092 => "AWS-MSK"@,
        9093 => "ALERTMANAGER"@,
        9100 => "NODE-EXPORTER"@,
        9160 => "CASSANDRA-THRIFT"@,
        9200 => "ELASTICSEARCH"@,
        9300 => "ELASTICSEARCH-NODE"@,
        9390 => "OPENVAS"@,
        9391 => "OPENVAS-ADMIN"@,
        9418 => "GIT"@,
        9443 => "GITLAB"@,
        9999 => "NEST"@,
        10250 => "KUBELET"@,
        10255 => "KUBELET-READ"@,
        10256 => "KUBE-PROXY"@,
        11211 => "MEMCACHED"@,
        20000 => "DNP3"@,
        25565 => "MINECRAFT"@,
        27014 => "STEAM"@,
        27015 => "SOURCE-ENGINE"@,
        27016 => "SOURCE-RCON"@,
        27017 => "STEAM-RCON"@,
        27018 => "STEAM-QUERY"@,
        27019 => "STEAM-BROADCAST"@,
        28017 => "MONGODB-WEB"@,
        31337 => "BACK-ORIFICE"@,
        32400 => "PLEX"@,
        34962 => "PROFINET-1"@,
        34963 => "PROFINET-2"@,
        34964 => "PROFINET-3"@,
        44818 => "ETHERNET-IP"@,
        47808 => "BACNET"@,
        _ => "Unknown"@,
    }
}

/// Whether `port` has an entry of its own in the catalog, as opposed to
/// falling through to the `"Unknown"` sentinel.
pub open spec fn has_entry(port: u16) -> bool {
    service_label(port) != "Unknown"@
}

/// Looks up the service label for `port`. Total: every port yields a label,
/// `"Unknown"` when the catalog has no entry. Pure: the result is a function
/// of `port` alone, so repeated calls agree.
pub fn lookup(port: u16) -> (label: &'static str)
    ensures
        label@ == service_label(port),
        !has_entry(port) ==> label@ == "Unknown"@,
{
    match port {
        1 => "TCPMUX",
        7 => "ECHO",
        9 => "DISCARD",
        13 => "DAYTIME",
        17 => "QOTD",
        19 => "CHARGEN",
        20 => "FTP-DATA",
        21 => "FTP",
        22 => "SSH",
        23 => "TELNET",
        25 => "SMTP",
        26 => "RSFTP",
        37 => "TIME",
        49 => "TACACS",
        53 => "DNS",
        67 => "DHCP-SERVER",
        68 => "DHCP-CLIENT",
        69 => "TFTP",
        79 => "FINGER",
        80 => "HTTP",
        81 => "TOR",
        88 => "KERBEROS",
        102 => "S7COMM",
        110 => "POP3",
        111 => "RPCBIND",
        119 => "NNTP",
        123 => "NTP",
        135 => "MSRPC",
        137 => "NETBIOS-NS",
        138 => "NETBIOS-DGM",
        139 => "NETBIOS-SSN",
        143 => "IMAP",
        161 => "SNMP",
        162 => "SNMP-TRAP",
        179 => "BGP",
        389 => "LDAP",
        443 => "HTTPS",
        445 => "MICROSOFT-DS",
        465 => "SMTPS",
        500 => "ISAKMP",
        502 => "MODBUS",
        513 => "RLOGIN",
        514 => "SYSLOG",
        515 => "LPD",
        520 => "RIP",
        523 => "IBM-DB2",
        548 => "AFP",
        554 => "RTSP",
        587 => "SUBMISSION",
        631 => "IPP",
        636 => "LDAPS",
        873 => "RSYNC",
        989 => "FTPS-DATA",
        990 => "FTPS",
        993 => "IMAPS",
        995 => "POP3S",
        1089 => "FF-ANNUNC",
        1090 => "FF-FIELDBUS",
        1091 => "FF-SYSTEM",
        1241 => "NESSUS-OLD",
        1433 => "MSSQL",
        1434 => "MSSQL-UDP",
        1521 => "ORACLE",
        1527 => "ORACLE-XE",
        1755 => "MMS",
        1880 => "NODE-RED",
        1883 => "MQTT",
        1900 => "UPNP",
        1935 => "RTMP",
        2049 => "AWS-EFS",
        2222 => "EtherCAT",
        2375 => "DOCKER",
        2376 => "DOCKER-SSL",
        2377 => "DOCKER-SWARM",
        3000 => "NODE",
        3074 => "XBOX-LIVE",
        3075 => "XBOX-LIVE-2",
        3076 => "XBOX-LIVE-3",
        3306 => "MYSQL",
        3389 => "AWS-WORKSPACES",
        3478 => "PLAYSTATION-NETWORK",
        3479 => "PLAYSTATION-NETWORK-2",
        3480 => "PLAYSTATION-NETWORK-3",
        3724 => "WORLD-OF-WARCRAFT",
        4200 => "ANGULAR",
        4243 => "DOCKER-API",
        4444 => "METASPLOIT",
        5060 => "SIP",
        5061 => "SIPS",
        5222 => "LEAGUE-OF-LEGENDS",
        5223 => "LEAGUE-OF-LEGENDS-2",
        5228 => "GOOGLE-TALK",
        5242 => "WHATSAPP",
        5243 => "WHATSAPP-VOICE",
        5353 => "MDNS",
        5432 => "POSTGRESQL",
        5439 => "AWS-REDSHIFT",
        5984 => "COUCHDB",
        6112 => "BATTLE.NET",
        6113 => "BATTLE.NET-2",
        6114 => "BATTLE.NET-3",
        6379 => "REDIS",
        6443 => "KUBERNETES-API",
        6970 => "QUICKTIME",
        7070 => "REALSERVER",
        7474 => "NEO4J",
        7687 => "NEO4J-BOLT",
        8000 => "DJANGO",
        8080 => "JENKINS",
        8086 => "INFLUXDB",
        8088 => "ICECAST",
        8090 => "SPOTIFY",
        8091 => "SPOTIFY-WEB",
        8092 => "SPOTIFY-CONNECT",
        8123 => "HOME-ASSISTANT",
        8443 => "JENKINS-SSL",
        8529 => "ARANGODB",
        8554 => "RTSP-CAMERAS-ALT",
        8834 => "NESSUS",
        8883 => "MQTT-SSL",
        9000 => "SONARQUBE",
        9042 => "CASSANDRA",
        9090 => "PROMETHEUS",
        9091 => "PROMETHEUS-PUSHGATEWAY",
        9092 => "AWS-MSK",
        9093 => "ALERTMANAGER",
        9100 => "NODE-EXPORTER",
        9160 => "CASSANDRA-THRIFT",
        9200 => "ELASTICSEARCH",
        9300 => "ELASTICSEARCH-NODE",
        9390 => "OPENVAS",
        9391 => "OPENVAS-ADMIN",
        9418 => "GIT",
        9443 => "GITLAB",
        9999 => "NEST",
        10250 => "KUBELET",
        10255 => "KUBELET-READ",
        10256 => "KUBE-PROXY",
        11211 => "MEMCACHED",
        20000 => "DNP3",
        25565 => "MINECRAFT",
        27014 => "STEAM",
        27015 => "SOURCE-ENGINE",
        27016 => "SOURCE-RCON",
        27017 => "STEAM-RCON",
        27018 => "STEAM-QUERY",
        27019 => "STEAM-BROADCAST",
        28017 => "MONGODB-WEB",
        31337 => "BACK-ORIFICE",
        32400 => "PLEX",
        34962 => "PROFINET-1",
        34963 => "PROFINET-2",
        34964 => "PROFINET-3",
        44818 => "ETHERNET-IP",
        47808 => "BACNET",
        _ => "Unknown",
    }
}

} // verus!
