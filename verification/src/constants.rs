//! Fixed values: addresses of services and mirrors, files on the router,
//! the packages that a backup covers.

use vstd::prelude::*;

use crate::text::{split, split_char, views};

verus! {

/// The update service.
pub const API_UPDATE_URL: &'static str = "https://api.miaoer.net/api/v2/snippets/catwrt/update";

/// The service that names the package source of each architecture and version.
pub const API_REPO_CONFIG_URL: &'static str = "https://api.miaoer.net/api/v2/snippets/catwrt/repo-config";

/// The base of the package sources.
pub const BASE_REPO_URL: &'static str = "https://raw.miaoer.net/cattools/repo";

/// The upgrade script for amd64 machines booting with EFI.
pub const SYSUP_AMD64_URL: &'static str =
    "https://raw.githubusercontent.com/miaoermua/cattools/main/sysupgrade/amd64/sysup_efi";

/// The upgrade script for mt7621 routers.
pub const SYSUP_MT7621_URL: &'static str =
    "https://raw.githubusercontent.com/miaoermua/cattools/main/sysupgrade/mt7621/sysup";

/// The upgrade script for mt798x routers.
pub const SYSUP_MT798X_URL: &'static str =
    "https://raw.githubusercontent.com/miaoermua/cattools/main/sysupgrade/mt798x/sysup";

/// The LAN address of a fresh CatWrt.
pub const DEFAULT_IP: &'static str = "192.168.1.4";

/// The file that describes the CatWrt release.
pub const RELEASE_FILE: &'static str = "/etc/catwrt_release";

/// The file that holds the list of backed-up packages.
pub const BACKUP_FILE: &'static str = "/etc/catwrt_opkg_list_installed";

/// The package sources offered on the stable channel.
pub fn mirror_options() -> (r: Vec<&'static str>)
    ensures
        r@ == seq![
            "miaoer.net (主站)",
            "Github-Pages",
            "Cloudflare-Netlify",
            "Netlify (默认)",
            "Cloudflare-Vercel",
            "Vercel",
        ],
{
    vec![
        "miaoer.net (主站)",
        "Github-Pages",
        "Cloudflare-Netlify",
        "Netlify (默认)",
        "Cloudflare-Vercel",
        "Vercel",
    ]
}

/// The package sources offered on the beta channel.
pub fn beta_mirror_options() -> (r: Vec<&'static str>)
    ensures
        r@ == seq!["netlify", "vercel (默认)"],
{
    vec!["netlify", "vercel (默认)"]
}

/// The packages that a backup looks for, separated by single spaces, in the
/// order in which a backup records them.
pub const COMMON_PACKAGE_NAMES: &'static str = "luci-app-ssr-plus luci-app-passwall luci-app-passwall2 luci-app-openclash luci-app-zerotier \
    luci-app-wireguard luci-app-tailscale luci-app-frpc luci-app-frps luci-app-nps luci-app-n2n \
    luci-app-shadowsocks-libev luci-app-v2ray luci-app-xray luci-app-trojan luci-app-clash \
    shadowsocks-libev-ss-local shadowsocks-libev-ss-redir shadowsocks-libev-ss-tunnel \
    v2ray-core xray-core luci-app-ttyd luci-app-dockerman luci-app-samba4 luci-app-usb-printer \
    luci-app-diskman luci-app-netdata luci-app-statistics luci-app-uhttpd luci-app-upnp \
    luci-app-wol luci-app-nlbwmon luci-app-adblock ttyd docker dockerd docker-compose \
    samba4-server samba4-client luci-app-qbittorrent luci-app-transmission luci-app-aria2 \
    qbittorrent transmission-daemon transmission-web aria2 luci-app-uugamebooster luci-app-xlnetacc \
    luci-app-LingTiGameAcc luci-app-natter luci-theme-design luci-theme-argon luci-theme-bootstrap \
    luci-theme-material luci-app-design-config luci-app-argon-config python3 python3-pip \
    node npm vim nano git git-http curl wget rsync screen tmux iperf3 tcpdump nmap mtr \
    socat netcat bind-dig bind-host openssh-sftp-server htop iotop lsof strace procps-ng-ps \
    coreutils coreutils-nohup bash zsh e2fsprogs ntfs-3g exfat-utils f2fs-tools btrfs-progs \
    gzip bzip2 xz zip unzip p7zip tar mariadb-server mariadb-client postgresql redis sqlite3-cli \
    nginx nginx-ssl apache lighttpd php8 php8-cgi php8-fastcgi php8-fpm php8-mod-curl \
    php8-mod-gd php8-mod-json php8-mod-mbstring php8-mod-mysqli php8-mod-pdo php8-mod-pdo-mysql \
    php8-mod-session php8-mod-xml php8-mod-zip openvpn-openssl openvpn-easy-rsa strongswan \
    xl2tpd pptpd softethervpn dnsmasq-full bind-server unbound smartdns iptables ip6tables \
    ipset conntrack collectd snmpd vnstat kmod-usb-storage kmod-usb-ohci kmod-usb-uhci \
    kmod-usb2 kmod-usb3 kmod-fs-ext4 kmod-fs-ntfs kmod-fs-exfat kmod-fs-vfat block-mount \
    blkid swap-utils fdisk gdisk parted lsblk smartmontools";

/// The packages that a backup looks for, in the order in which a backup
/// records them.
pub fn common_packages() -> (r: Vec<String>)
    ensures
        views(r@) == split(COMMON_PACKAGE_NAMES@, ' '),
{
    split_char(COMMON_PACKAGE_NAMES, ' ')
}

} // verus!
