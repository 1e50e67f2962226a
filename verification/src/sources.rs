pub mod alienvault;
pub mod binaryedge;
pub mod c99;
pub mod certspotter;
pub mod crtsh;
pub mod facebook;
pub mod intelx;
pub mod rapidns;
pub mod recondev;
pub mod sonarsearch;
pub mod spyse;
pub mod anubisdb;
pub mod bufferover;
pub mod chaos;
pub mod hackertarget;
pub mod passivetotal;
pub mod securitytrails;
pub mod sublister;
pub mod threatcrowd;
pub mod threatminer;
pub mod urlscan;
pub mod virustotal;
pub mod wayback;
