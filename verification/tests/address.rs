use websocat::address::SocketAddress;

fn v4(a: u8, b: u8, c: u8, d: u8, port: u16) -> Option<SocketAddress> {
    Some(SocketAddress::V4 { octets: [a, b, c, d], port })
}

fn v6(segments: [u16; 8], scope_id: u32, port: u16) -> Option<SocketAddress> {
    Some(SocketAddress::V6 { segments, scope_id, port })
}

#[test]
fn ipv4_addresses() {
    assert_eq!(SocketAddress::from_text("127.0.0.1:9000"), v4(127, 0, 0, 1, 9000));
    assert_eq!(SocketAddress::from_text("0.0.0.0:0"), v4(0, 0, 0, 0, 0));
    assert_eq!(SocketAddress::from_text("255.255.255.255:65535"), v4(255, 255, 255, 255, 65535));
    assert_eq!(SocketAddress::from_text("10.20.30.40:00080"), v4(10, 20, 30, 40, 80));
}

#[test]
fn ipv4_rejections() {
    for text in [
        "",
        "127.0.0.1",
        "127.0.0.1:",
        ":80",
        "127.0.0.1:65536",
        "127.0.0.1:-1",
        "127.0.0.1:8x",
        "256.0.0.1:80",
        "1.2.3:80",
        "1.2.3.4.5:80",
        "01.2.3.4:80",
        "1.2.3.04:80",
        "1..3.4:80",
        "1.2.3.4 :80",
        " 1.2.3.4:80",
        "1.2.3.4:80 ",
        "1.2.3.4:80:90",
        "0001.2.3.4:80",
        "1.2.3.a:80",
        "localhost:80",
    ] {
        assert_eq!(SocketAddress::from_text(text), None, "{:?}", text);
    }
}

#[test]
fn ipv6_addresses() {
    assert_eq!(SocketAddress::from_text("[::1]:80"), v6([0, 0, 0, 0, 0, 0, 0, 1], 0, 80));
    assert_eq!(SocketAddress::from_text("[::]:0"), v6([0; 8], 0, 0));
    assert_eq!(
        SocketAddress::from_text("[1:2:3:4:5:6:7:8]:9"),
        v6([1, 2, 3, 4, 5, 6, 7, 8], 0, 9)
    );
    assert_eq!(
        SocketAddress::from_text("[2001:db8::ff00:42:8329]:443"),
        v6([0x2001, 0xdb8, 0, 0, 0, 0xff00, 0x42, 0x8329], 0, 443)
    );
    assert_eq!(
        SocketAddress::from_text("[::ffff:192.168.1.2]:8080"),
        v6([0, 0, 0, 0, 0, 0xffff, 0xc0a8, 0x0102], 0, 8080)
    );
    assert_eq!(
        SocketAddress::from_text("[1:2:3:4:5:6:1.2.3.4]:1"),
        v6([1, 2, 3, 4, 5, 6, 0x0102, 0x0304], 0, 1)
    );
    assert_eq!(
        SocketAddress::from_text("[fe80::1%7]:22"),
        v6([0xfe80, 0, 0, 0, 0, 0, 0, 1], 7, 22)
    );
    assert_eq!(
        SocketAddress::from_text("[1:2:3:4:5:6:7::]:1"),
        v6([1, 2, 3, 4, 5, 6, 7, 0], 0, 1)
    );
    assert_eq!(
        SocketAddress::from_text("[::2:3:4:5:6:7:8]:1"),
        v6([0, 2, 3, 4, 5, 6, 7, 8], 0, 1)
    );
    assert_eq!(
        SocketAddress::from_text("[ABCD:ef01::]:1"),
        v6([0xabcd, 0xef01, 0, 0, 0, 0, 0, 0], 0, 1)
    );
}

#[test]
fn ipv6_rejections() {
    for text in [
        "::1:80",
        "[::1]",
        "[::1]:",
        "[::1]80",
        "[::1:80",
        "::1]:80",
        "[]:80",
        "[1:2:3:4:5:6:7]:80",
        "[1:2:3:4:5:6:7:8:9]:80",
        "[1:2:3:4:5:6:7:8::]:80",
        "[::1:2:3:4:5:6:7:8]:80",
        "[1::2::3]:80",
        "[:::]:80",
        "[1:::2]:80",
        "[:1::2]:80",
        "[1::2:]:80",
        "[12345::]:80",
        "[g::]:80",
        "[1.2.3.4::]:80",
        "[::1.2.3.4:5]:80",
        "[1:2:3:4:5:6:7:1.2.3.4]:80",
        "[1:2:3:4:5:6::1.2.3.4]:80",
        "[::1.2.3]:80",
        "[::01.2.3.4]:80",
        "[::1%]:80",
        "[::1%eth0]:80",
        "[::1%4294967296]:80",
        "[::1%1%2]:80",
        "[::1]]:80",
        "[[::1]:80",
        "[::1]:65536",
        "[::1] :80",
    ] {
        assert_eq!(SocketAddress::from_text(text), None, "{:?}", text);
    }
}

#[test]
fn port_accessor() {
    assert_eq!(SocketAddress::from_text("1.2.3.4:5").unwrap().port(), 5);
    assert_eq!(SocketAddress::from_text("[::1%3]:65535").unwrap().port(), 65535);
}
