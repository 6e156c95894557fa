//! The fixed text of the three emails that the service sends. Each constant
//! is one stretch of HTML between two values that the email fills in.
use vstd::prelude::*;

verus! {

/// The alert email up to the city in its heading.
pub const ALERT_OPENING: &'static str = "
            <html>
            <head>
                <style>
                    body { font-family: Arial, sans-serif; line-height: 1.6; color: #333; }
                    .container { max-width: 600px; margin: 0 auto; padding: 20px; }
                    .header { background: linear-gradient(135deg, #667eea 0%, #764ba2 100%); 
                              color: white; padding: 30px; border-radius: 10px 10px 0 0; }
                    .content { background: #f4f4f4; padding: 30px; border-radius: 0 0 10px 10px; }
                    .alert-box { background: #fff3cd; border-left: 4px solid #ffc107; 
                                  padding: 15px; margin: 20px 0; border-radius: 5px; }
                    .footer { text-align: center; margin-top: 20px; color: #666; font-size: 12px; }
                </style>
            </head>
            <body>
                <div class=\"container\">
                    <div class=\"header\">
                        <h1>🌤️ Weather Alert System</h1>
                        <p>Your personalized weather notification</p>
                    </div>
                    <div class=\"content\">
                        <h2>Alert for ";

/// The alert email between the city and the alert message.
pub const ALERT_MIDDLE: &'static str = "</h2>
                        <div class=\"alert-box\">
                            <strong>Alert Message:</strong><br/>
                            ";

/// The alert email after the alert message.
pub const ALERT_CLOSING: &'static str = "
                        </div>
                        <p>This alert was triggered based on your weather preferences.</p>
                        <p><strong>What to do?</strong></p>
                        <ul>
                            <li>Check the current conditions</li>
                            <li>Plan accordingly for your day</li>
                            <li>Update your preferences if needed</li>
                        </ul>
                    </div>
                    <div class=\"footer\">
                        <p>Weather Alert System - Powered by OpenWeatherMap</p>
                        <p>To update your preferences, visit your dashboard</p>
                    </div>
                </div>
            </body>
            </html>
            ";

/// The welcome email up to the city.
pub const WELCOME_OPENING: &'static str = "
            <html>
            <head>
                <style>
                    body { font-family: Arial, sans-serif; line-height: 1.6; color: #333; }
                    .container { max-width: 600px; margin: 0 auto; padding: 20px; }
                    .header { background: linear-gradient(135deg, #667eea 0%, #764ba2 100%); 
                              color: white; padding: 30px; border-radius: 10px 10px 0 0; text-align: center; }
                    .content { background: #f4f4f4; padding: 30px; border-radius: 0 0 10px 10px; }
                    .button { display: inline-block; padding: 12px 30px; background: #667eea; 
                              color: white; text-decoration: none; border-radius: 5px; margin-top: 20px; }
                    .footer { text-align: center; margin-top: 20px; color: #666; font-size: 12px; }
                </style>
            </head>
            <body>
                <div class=\"container\">
                    <div class=\"header\">
                        <h1>🎉 Welcome!</h1>
                        <p>You're now registered for weather alerts</p>
                    </div>
                    <div class=\"content\">
                        <h2>Hi there! 👋</h2>
                        <p>Thank you for registering with Weather Alert System!</p>
                        <p><strong>Your Location:</strong> ";

/// The welcome email after the city.
pub const WELCOME_CLOSING: &'static str = "</p>
                        <p>We'll monitor the weather in your area and send you alerts based on your preferences.</p>
                        
                        <h3>What's Next?</h3>
                        <ul>
                            <li>Set your temperature thresholds (min/max)</li>
                            <li>Choose weather conditions to be alerted about (rain, snow, storms)</li>
                            <li>Receive automatic alerts every 2 hours</li>
                        </ul>
                        
                        <p>Our CRON job runs every 2 hours to check weather conditions and send alerts.</p>
                    </div>
                    <div class=\"footer\">
                        <p>Weather Alert System - Stay informed, stay prepared</p>
                    </div>
                </div>
            </body>
            </html>
            ";

/// The diagnostic email up to the recipient.
pub const TEST_OPENING: &'static str = "
            <html>
            <body style=\"font-family: Arial, sans-serif; padding: 20px;\">
                <h2>✅ Email Configuration Test</h2>
                <p>If you're reading this, your email configuration is working correctly!</p>
                <p><strong>Test Details:</strong></p>
                <ul>
                    <li>Recipient: ";

/// The diagnostic email between the recipient and the subject.
pub const TEST_BEFORE_SUBJECT: &'static str = "</li>
                    <li>Subject: ";

/// The diagnostic email between the subject and the time.
pub const TEST_BEFORE_TIME: &'static str = "</li>
                    <li>Time: ";

/// The diagnostic email after the time.
pub const TEST_CLOSING: &'static str = "</li>
                </ul>
                <p>Your Weather Alert System is ready to send notifications.</p>
            </body>
            </html>
            ";

} // verus!
